//! The macOS runner: the worker is the executable of the signed application bundle, and `authopen`
//! hands out the one raw device that the user authorizes.

use vstd::prelude::*;
use vstd::string::*;
use vstd::utf8::*;

use crate::paths;
use crate::paths::{file_name, member_path, name_extension, parent_path};
use crate::pipeline;
use crate::pipeline::monitor;
use crate::pipeline::monitor::stderr_message;
use crate::pipeline::runner;
use crate::pipeline::runner::{LaunchAction, WorkerProcessRun};
use crate::pipeline::{WorkerLaunch, WorkerRunnerError, WorkerRunnerErrorView};
use crate::text;
use crate::text::{chars_of, digits_between, has_prefix, join2, same_text, text_between};
use crate::worker::macos::{TARGET_FD_REQUEST, TARGET_FD_RESPONSE};
use crate::worker::Platform;

verus! {

broadcast use vstd::seq_lib::group_seq_properties;

/// What the signature of the application bundle has to satisfy.
pub const WORKER_REQUIREMENT: &'static str = "identifier \"cc.snapdog.os-installer\" and anchor apple generic and certificate 1[field.1.2.840.113635.100.6.2.6] exists and certificate leaf[field.1.2.840.113635.100.6.1.13] exists and certificate leaf[subject.OU] = \"898G35U5LW\"";

/// Where the executable lies in the application bundle.
pub const WORKER_RELATIVE_PATH: &'static str = "Contents/MacOS/SnapDog OS Installer";

/// The helper that opens a device once the user has authorized it.
pub const AUTHOPEN: &'static str = "/usr/libexec/authopen";

/// Darwin's `O_RDWR | O_SYNC`. Raw disks reject `F_FULLFSYNC` with `ENOTTY`, so the descriptor
/// itself must provide synchronous file-integrity writes.
pub const AUTHOPEN_RAW_FLAGS: &'static str = "130";

/// Launches the current application binary as an isolated, unprivileged worker.
#[derive(Clone, Debug)]
pub struct MacOsWorkerRunner {
    pub bundle: String,
}

/// A failure of the runner for a reason.
pub open spec fn runner_io(reason: Seq<char>) -> Option<WorkerRunnerErrorView> {
    Some(WorkerRunnerErrorView::Io(reason))
}

fn refuse<T>(reason: &str) -> (result: Result<T, WorkerRunnerError>)
    ensures
        result matches Err(error) && error@ == WorkerRunnerErrorView::Io(reason@),
{
    Err(WorkerRunnerError::Io(reason.to_owned()))
}

// ---------------------------------------------------------------------------------------------
// The target
// ---------------------------------------------------------------------------------------------

/// The number of a whole-disk device, as text.
pub open spec fn disk_digits(device: Seq<char>) -> Option<Seq<char>> {
    let prefix = "/dev/disk"@;
    if text::starts_with(device, prefix) {
        let digits = device.subrange(prefix.len() as int, device.len() as int);
        if digits.len() > 0 && text::all_digits(digits) {
            Some(digits)
        } else {
            None
        }
    } else {
        None
    }
}

/// The raw device of a whole-disk device.
pub fn raw_device_path(device: &str) -> (result: Result<String, WorkerRunnerError>)
    ensures
        match result {
            Ok(path) => disk_digits(device@) matches Some(digits) && path@ == "/dev/rdisk"@
                + digits,
            Err(error) => disk_digits(device@) is None && Some(error@) == runner_io(
                "macOS target must be a whole-disk device"@,
            ),
        },
{
    let characters = chars_of(device);
    match has_prefix(&characters, "/dev/disk") {
        None => refuse("macOS target must be a whole-disk device"),
        Some(length) => {
            if length == characters.len() || !digits_between(
                &characters,
                length,
                characters.len(),
            ) {
                return refuse("macOS target must be a whole-disk device");
            }
            let digits = text_between(&characters, length, characters.len());
            Ok(join2("/dev/rdisk", digits.as_str()))
        },
    }
}

/// The arguments with which `authopen` opens a raw device.
pub fn authopen_arguments(raw_path: &str) -> (arguments: Vec<String>)
    ensures
        text::texts(arguments@) == seq!["-stdoutpipe"@, "-o"@, AUTHOPEN_RAW_FLAGS@, raw_path@],
{
    let mut arguments: Vec<String> = Vec::new();
    arguments.push("-stdoutpipe".to_owned());
    arguments.push("-o".to_owned());
    arguments.push(AUTHOPEN_RAW_FLAGS.to_owned());
    arguments.push(raw_path.to_owned());
    assert(text::texts(arguments@) =~= seq![
        "-stdoutpipe"@,
        "-o"@,
        AUTHOPEN_RAW_FLAGS@,
        raw_path@,
    ]);
    arguments
}

/// How a helper process ended.
#[derive(Debug)]
pub struct HelperExit {
    pub success: bool,
    /// Its status in words.
    pub status: String,
    pub stderr: Vec<u8>,
}

/// The failure of a helper process.
pub open spec fn helper_failure(exit: HelperExit) -> WorkerRunnerErrorView {
    WorkerRunnerErrorView::Failed {
        status: exit.status@,
        message: monitor::reported_message(Platform::MacOs, monitor::lossy_text(exit.stderr@)),
    }
}

/// Why a helper process that ended has failed.
pub open spec fn helper_fault(exit: HelperExit) -> Option<WorkerRunnerErrorView> {
    if exit.success {
        None
    } else {
        Some(helper_failure(exit))
    }
}

/// Check how a helper process ended.
pub fn helper_succeeded(exit: &HelperExit) -> (result: Result<(), WorkerRunnerError>)
    ensures
        pipeline::is_verdict(result, helper_fault(*exit)),
{
    if exit.success {
        Ok(())
    } else {
        Err(
            WorkerRunnerError::Failed {
                status: exit.status.clone(),
                message: stderr_message(Platform::MacOs, &exit.stderr),
            },
        )
    }
}

/// What came from `authopen`: how many bytes, and how many descriptors.
#[derive(Clone, Copy, Debug, PartialEq, Eq)]
pub struct DescriptorMessage {
    pub bytes: usize,
    pub descriptors: usize,
}

/// Why no target came from `authopen`.
pub open spec fn authopen_fault(
    exit: HelperExit,
    received: Result<DescriptorMessage, String>,
) -> Option<WorkerRunnerErrorView> {
    if !exit.success {
        Some(helper_failure(exit))
    } else {
        match received {
            Err(cause) => runner_io(cause@),
            Ok(message) => if message.bytes == 0 || message.descriptors != 1 {
                runner_io("authopen did not return exactly one target descriptor"@)
            } else {
                None
            },
        }
    }
}

/// Check that exactly one target came from `authopen`, and that it ended well.
pub fn authorized_raw_target(
    exit: &HelperExit,
    received: &Result<DescriptorMessage, String>,
) -> (result: Result<(), WorkerRunnerError>)
    ensures
        pipeline::is_verdict(result, authopen_fault(*exit, *received)),
{
    match helper_succeeded(exit) {
        Err(error) => {
            return Err(error);
        },
        Ok(()) => {},
    }
    match received {
        Err(cause) => refuse(cause.as_str()),
        Ok(message) => {
            if message.bytes == 0 || message.descriptors != 1 {
                refuse("authopen did not return exactly one target descriptor")
            } else {
                Ok(())
            }
        },
    }
}

/// Why what a worker sent does not ask for the target.
pub open spec fn request_fault(request: Seq<u8>) -> Option<WorkerRunnerErrorView> {
    if request == encode_utf8(TARGET_FD_REQUEST@) {
        None
    } else {
        runner_io("worker sent an invalid target descriptor request"@)
    }
}

/// Why a worker was not answered, after so many bytes were sent.
pub open spec fn sent_fault(sent: nat) -> Option<WorkerRunnerErrorView> {
    if sent == encode_utf8(TARGET_FD_RESPONSE@).len() {
        None
    } else {
        runner_io("authorized target descriptor response was incomplete"@)
    }
}

/// Check what a worker sent to ask for its target.
pub fn validate_request(request: &Vec<u8>) -> (result: Result<(), WorkerRunnerError>)
    ensures
        pipeline::is_verdict(result, request_fault(request@)),
{
    let wanted: &[u8] = TARGET_FD_REQUEST.as_bytes();
    if request.len() != wanted.len() {
        assert(request@ != wanted@);
        return refuse("worker sent an invalid target descriptor request");
    }
    let mut index: usize = 0;
    while index < wanted.len()
        invariant
            index <= wanted@.len(),
            request@.len() == wanted@.len(),
            wanted@ == encode_utf8(TARGET_FD_REQUEST@),
            forall|i: int| 0 <= i < index ==> request@[i] == wanted@[i],
        decreases wanted@.len() - index,
    {
        if request[index] != wanted[index] {
            assert(request@[index as int] != wanted@[index as int]);
            return refuse("worker sent an invalid target descriptor request");
        }
        index += 1;
    }
    assert(request@ =~= wanted@);
    Ok(())
}

/// Check that the whole response went to the worker, given how many of its bytes did.
pub fn validate_sent(sent: usize) -> (result: Result<(), WorkerRunnerError>)
    ensures
        pipeline::is_verdict(result, sent_fault(sent as nat)),
{
    let response: &[u8] = TARGET_FD_RESPONSE.as_bytes();
    if sent != response.len() {
        refuse("authorized target descriptor response was incomplete")
    } else {
        Ok(())
    }
}

// ---------------------------------------------------------------------------------------------
// The bundle
// ---------------------------------------------------------------------------------------------

/// The application bundle that an executable lies in, if its place is that of one.
/// `worker_is_file` tells whether the bundle holds the worker's executable.
pub open spec fn bundle_fault(executable: Seq<char>, worker_is_file: bool) -> Option<
    WorkerRunnerErrorView,
> {
    match paths::path_view(executable).parent() {
        None => runner_io("application executable has no parent"@),
        Some(folder) => {
            let macos = paths::path_view(paths::path_text(folder));
            match macos.parent() {
                None => runner_io("application executable is not in a bundle"@),
                Some(above) => {
                    let contents = paths::path_view(paths::path_text(above));
                    match contents.parent() {
                        None => runner_io("application executable is not in a bundle"@),
                        Some(top) => if macos.file_name() != Some("MacOS"@) || !is_application(
                            paths::path_text(top),
                        ) || !worker_is_file {
                            runner_io(
                                "raw-device writing requires the signed SnapDog application bundle"@,
                            )
                        } else {
                            None
                        },
                    }
                },
            }
        },
    }
}

/// Whether a path is that of an application.
pub open spec fn is_application(path: Seq<char>) -> bool {
    paths::path_view(path).file_name() matches Some(name) && paths::extension(name) == Some("app"@)
}

/// The directory three levels above an executable.
pub open spec fn bundle_text(executable: Seq<char>) -> Seq<char> {
    let macos = paths::path_text(paths::path_view(executable).parent()->0);
    let contents = paths::path_text(paths::path_view(macos).parent()->0);
    paths::path_text(paths::path_view(contents).parent()->0)
}

fn has_name(path: &str, wanted: &str) -> (result: bool)
    ensures
        result == (paths::path_view(path@).file_name() == Some(wanted@)),
{
    match file_name(path) {
        Some(name) => same_text(name.as_str(), wanted),
        None => false,
    }
}

fn names_application(path: &str) -> (result: bool)
    ensures
        result == is_application(path@),
{
    match file_name(path) {
        Some(name) => match name_extension(name.as_str()) {
            Some(extension) => same_text(extension.as_str(), "app"),
            None => false,
        },
        None => false,
    }
}

/// The application bundle of an executable. `worker_is_file` tells whether that bundle holds the
/// worker's executable.
pub fn bundle_for_executable(executable: &str, worker_is_file: bool) -> (result: Result<
    String,
    WorkerRunnerError,
>)
    ensures
        pipeline::is_verdict(result, bundle_fault(executable@, worker_is_file)),
        result matches Ok(bundle) ==> bundle@ == bundle_text(executable@),
{
    let macos = match parent_path(executable) {
        None => {
            return refuse("application executable has no parent");
        },
        Some(path) => path,
    };
    let contents = match parent_path(macos.as_str()) {
        None => {
            return refuse("application executable is not in a bundle");
        },
        Some(path) => path,
    };
    let bundle = match parent_path(contents.as_str()) {
        None => {
            return refuse("application executable is not in a bundle");
        },
        Some(path) => path,
    };
    if !has_name(macos.as_str(), "MacOS") || !names_application(bundle.as_str())
        || !worker_is_file {
        return refuse("raw-device writing requires the signed SnapDog application bundle");
    }
    Ok(bundle)
}

/// The arguments with which `codesign` checks a bundle.
pub fn codesign_arguments(bundle: &str) -> (arguments: Vec<String>)
    ensures
        text::texts(arguments@) == seq![
            "--verify"@,
            "--deep"@,
            "--strict"@,
            "-R="@ + WORKER_REQUIREMENT@,
            bundle@,
        ],
{
    let mut arguments: Vec<String> = Vec::new();
    arguments.push("--verify".to_owned());
    arguments.push("--deep".to_owned());
    arguments.push("--strict".to_owned());
    arguments.push(join2("-R=", WORKER_REQUIREMENT));
    arguments.push(bundle.to_owned());
    assert(text::texts(arguments@) =~= seq![
        "--verify"@,
        "--deep"@,
        "--strict"@,
        "-R="@ + WORKER_REQUIREMENT@,
        bundle@,
    ]);
    arguments
}

/// Why the running executable cannot be the worker. `executable` is its path, and `signature` how
/// `codesign` ended, where the bundle is to be checked.
pub open spec fn current_fault(
    executable: Result<String, String>,
    worker_is_file: bool,
    signature: Option<Result<HelperExit, String>>,
) -> Option<WorkerRunnerErrorView> {
    match executable {
        Err(cause) => runner_io(cause@),
        Ok(path) => match bundle_fault(path@, worker_is_file) {
            Some(fault) => Some(fault),
            None => match signature {
                None => None,
                Some(Err(cause)) => runner_io(cause@),
                Some(Ok(exit)) => if exit.success {
                    None
                } else {
                    Some(helper_failure(exit))
                },
            },
        },
    }
}

impl MacOsWorkerRunner {
    /// Use the currently running executable for the isolated worker re-entry.
    pub fn current(
        executable: &Result<String, String>,
        worker_is_file: bool,
        signature: &Option<Result<HelperExit, String>>,
    ) -> (result: Result<MacOsWorkerRunner, WorkerRunnerError>)
        ensures
            pipeline::is_verdict(result, current_fault(*executable, worker_is_file, *signature)),
            result matches Ok(runner) ==> executable matches Ok(path) && runner.bundle@
                == bundle_text(path@),
    {
        let bundle = match executable {
            Err(cause) => {
                return refuse(cause.as_str());
            },
            Ok(path) => match bundle_for_executable(path.as_str(), worker_is_file) {
                Err(error) => {
                    return Err(error);
                },
                Ok(bundle) => bundle,
            },
        };
        match signature {
            None => {},
            Some(Err(cause)) => {
                return refuse(cause.as_str());
            },
            Some(Ok(exit)) => match helper_succeeded(exit) {
                Err(error) => {
                    return Err(error);
                },
                Ok(()) => {},
            },
        }
        Ok(MacOsWorkerRunner { bundle })
    }

    /// Use an explicit signed application bundle.
    ///
    /// This is primarily useful for integration tests and packaged-app launch plumbing.
    pub fn with_bundle(bundle: String) -> (runner: MacOsWorkerRunner)
        ensures
            runner.bundle == bundle,
    {
        MacOsWorkerRunner { bundle }
    }

    /// The executable of the bundle.
    pub fn executable(&self) -> (path: String)
        ensures
            path@ == paths::member_text(self.bundle@, WORKER_RELATIVE_PATH@),
    {
        member_path(self.bundle.as_str(), WORKER_RELATIVE_PATH)
    }

    /// The raw device to open once, for reading and writing, so that macOS asks the user for scoped
    /// removable-volume access before the worker is launched.
    ///
    /// TCC attributes access to the responsible GUI process. A non-destructive open attempt from
    /// that process triggers the native Removable Volumes prompt; the subsequently spawned worker
    /// then inherits the decision. What the attempt comes to does not matter: authorization to
    /// write is granted later for the exact raw device through `authopen`.
    pub fn prime_removable_volume_access(&self, device: &str) -> (result: Result<
        String,
        WorkerRunnerError,
    >)
        ensures
            match result {
                Ok(path) => disk_digits(device@) matches Some(digits) && path@ == "/dev/rdisk"@
                    + digits,
                Err(error) => disk_digits(device@) is None && Some(error@) == runner_io(
                    "macOS target must be a whole-disk device"@,
                ),
            },
    {
        raw_device_path(device)
    }

    /// Begin to run a worker.
    pub fn run(&self, launch: WorkerLaunch) -> (result: (WorkerProcessRun, LaunchAction))
        ensures
            (result.0@, result.1@) == runner::launch_start(
                Platform::MacOs,
                paths::member_text(self.bundle@, WORKER_RELATIVE_PATH@),
                None,
                launch@,
            ),
            result.0@.well_formed(),
    {
        WorkerProcessRun::start(Platform::MacOs, self.executable(), None, launch)
    }
}

/// A device is that of a whole disk exactly where it is the prefix of disk devices with digits
/// behind it, and its number is those digits.
pub proof fn whole_disks_have_a_number(device: Seq<char>)
    ensures
        disk_digits(device) matches Some(digits) ==> device == "/dev/disk"@ + digits
            && digits.len() > 0,
        disk_digits(device) is Some <==> exists|digits: Seq<char>|
            digits.len() > 0 && text::all_digits(digits) && device == #[trigger] ("/dev/disk"@
                + digits),
{
    let prefix = "/dev/disk"@;
    if let Some(digits) = disk_digits(device) {
        assert(device =~= prefix + digits);
    }
    if exists|digits: Seq<char>|
        digits.len() > 0 && text::all_digits(digits) && device == #[trigger] (prefix + digits) {
        let digits = choose|digits: Seq<char>|
            digits.len() > 0 && text::all_digits(digits) && device == #[trigger] (prefix + digits);
        assert(device.subrange(prefix.len() as int, device.len() as int) =~= digits);
        assert(text::starts_with(device, prefix));
    }
}

/// A target came from the authorization helper exactly where the helper succeeded and handed over
/// one descriptor with at least one byte; a helper that failed is reported with its status.
pub proof fn one_descriptor_is_a_target(
    exit: HelperExit,
    received: Result<DescriptorMessage, String>,
)
    ensures
        authopen_fault(exit, received) is None <==> exit.success && (received matches Ok(message)
            && message.bytes > 0 && message.descriptors == 1),
        !exit.success ==> (authopen_fault(exit, received) matches Some(fault) && fault is Failed
            && fault->status == exit.status@),
{
}

/// The running executable can be the worker exactly where it lies in an application bundle that holds
/// the worker, and the bundle's signature was not to be checked or was found good.
pub proof fn signed_bundle_can_be_the_worker(
    executable: Result<String, String>,
    worker_is_file: bool,
    signature: Option<Result<HelperExit, String>>,
)
    ensures
        current_fault(executable, worker_is_file, signature) is None <==> {
            &&& executable matches Ok(path)
            &&& bundle_fault(path@, worker_is_file) is None
            &&& signature matches Some(checked) ==> (checked matches Ok(exit) && exit.success)
        },
{
}

/// A bundle has to hold the worker, and to be an application whose executables lie where those of an
/// application do; it is the directory that lies three levels above the executable.
pub proof fn bundle_is_an_application(executable: Seq<char>, worker_is_file: bool)
    requires
        bundle_fault(executable, worker_is_file) is None,
    ensures
        worker_is_file,
        paths::path_view(bundle_text(executable)).file_name() matches Some(name)
            && paths::extension(name) == Some("app"@),
        paths::path_view(
            paths::path_text(paths::path_view(executable).parent()->0),
        ).file_name() == Some("MacOS"@),
{
}

/// One request is accepted and no other, and a worker takes for its target what it got with the whole
/// answer: a part of it, or more than it, is not an answer that was sent.
pub proof fn one_request_has_one_answer(request: Seq<u8>, answer: Seq<u8>)
    ensures
        request_fault(request) is None <==> request == encode_utf8(TARGET_FD_REQUEST@),
        crate::worker::macos::response_fault(answer, 1) is None ==> sent_fault(
            answer.len(),
        ) is None,
        sent_fault(answer.len()) is None ==> answer.len() == encode_utf8(
            TARGET_FD_RESPONSE@,
        ).len(),
{
}

/// A helper that ended with success has no fault; another reports how it ended.
pub proof fn helper_is_judged_by_its_exit(exit: HelperExit)
    ensures
        helper_fault(exit) is None <==> exit.success,
        helper_fault(exit) matches Some(fault) ==> fault is Failed && fault->status
            == exit.status@,
{
}

} // verus!
