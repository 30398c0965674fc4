//! The private session that a privileged worker accepts on Windows, and everything it checks
//! before it starts.
//!
//! As on Unix, the checks follow from the texts of the job alone; each path is then looked at and
//! judged in turn. A directory is recognized again by the handle that was opened for it first.

use vstd::prelude::*;
use vstd::string::*;

use crate::text;
use crate::text::{join2, join3};
use crate::worker;
use crate::worker::session::LookFailure;
use crate::worker::windows_paths;
use crate::worker::windows_paths::{
    is_clean_windows_absolute_path, is_local_member_path, lies_in_directory, local_parent,
    parse_drive_path,
};
use crate::worker::{
    current_worker_job_path, invalid_session, invalid_session2, validate_job_text, Platform,
    ProgressDestination, WorkerError, WorkerErrorView, WorkerJob,
};

verus! {

broadcast use vstd::seq_lib::group_seq_properties;

/// The attribute of a file that leads elsewhere.
pub const FILE_ATTRIBUTE_REPARSE_POINT: u32 = 0x400;

/// What a look at a path, without following a final link, shows of it.
#[derive(Clone, Copy, Debug, PartialEq, Eq)]
pub struct WindowsFileFacts {
    pub is_symlink: bool,
    pub is_dir: bool,
    pub is_file: bool,
    pub attributes: u32,
    pub length: u64,
}

/// Whether facts are those of a plain directory or file of the wanted size.
pub open spec fn is_plain_entry(
    facts: WindowsFileFacts,
    directory: bool,
    size: Option<u64>,
    empty: bool,
) -> bool {
    &&& facts.attributes & FILE_ATTRIBUTE_REPARSE_POINT == 0
    &&& if directory {
        facts.is_dir
    } else {
        facts.is_file
    }
    &&& size matches Some(wanted) ==> facts.length == wanted
    &&& empty ==> facts.length == 0
}

/// The reason for which an entry is refused.
pub open spec fn entry_reason(
    facts: WindowsFileFacts,
    directory: bool,
    size: Option<u64>,
    empty: bool,
    name: Seq<char>,
) -> Option<WorkerErrorView> {
    if is_plain_entry(facts, directory, size, empty) {
        None
    } else {
        Some(
            WorkerErrorView::InvalidJob(name + " has an unsafe type, reparse point, or size"@),
        )
    }
}

/// Check a directory or a file.
pub fn validate_windows_metadata(
    facts: &WindowsFileFacts,
    directory: bool,
    size: Option<u64>,
    empty: bool,
    name: &str,
) -> (result: Result<(), WorkerError>)
    ensures
        worker::is_verdict(result, entry_reason(*facts, directory, size, empty, name@)),
{
    let expected_type = if directory {
        facts.is_dir
    } else {
        facts.is_file
    };
    let right_size = match size {
        Some(wanted) => facts.length == wanted,
        None => true,
    };
    if facts.attributes & FILE_ATTRIBUTE_REPARSE_POINT != 0 || !expected_type || !right_size || (
    empty && facts.length != 0) {
        return Err(invalid_session2(name, " has an unsafe type, reparse point, or size"));
    }
    Ok(())
}

/// One thing to check.
#[derive(Debug)]
pub enum WindowsCheck {
    /// The job is refused for what it says.
    Refuse(WorkerError),
    /// The session lies on a ready local fixed disk.
    FixedDisk(String),
    /// The session directory, of which a handle is kept.
    Directory(String),
    /// The session directory is still the same.
    SameDirectory(String),
    /// The session directory is still the same, where the marker before it was found.
    SameAfterMarker(String),
    /// A file of the session.
    File { path: String, name: &'static str, size: Option<u64>, empty: bool },
    /// A marker that may not be there yet.
    Marker { path: String, name: &'static str },
    /// The raw image, as the job describes it.
    RawImage(String),
    /// The progress file is to be opened for writing, without truncating it.
    OpenProgress(String),
    /// The opened progress file is to be truncated.
    TruncateProgress,
}

/// What a [`WindowsCheck`] holds.
pub enum WindowsCheckView {
    Refuse(WorkerErrorView),
    FixedDisk(Seq<char>),
    Directory(Seq<char>),
    SameDirectory(Seq<char>),
    SameAfterMarker(Seq<char>),
    File { path: Seq<char>, name: Seq<char>, size: Option<u64>, empty: bool },
    Marker { path: Seq<char>, name: Seq<char> },
    RawImage(Seq<char>),
    OpenProgress(Seq<char>),
    TruncateProgress,
}

impl View for WindowsCheck {
    type V = WindowsCheckView;

    open spec fn view(&self) -> WindowsCheckView {
        match *self {
            WindowsCheck::Refuse(error) => WindowsCheckView::Refuse(error@),
            WindowsCheck::FixedDisk(path) => WindowsCheckView::FixedDisk(path@),
            WindowsCheck::Directory(path) => WindowsCheckView::Directory(path@),
            WindowsCheck::SameDirectory(path) => WindowsCheckView::SameDirectory(path@),
            WindowsCheck::SameAfterMarker(path) => WindowsCheckView::SameAfterMarker(path@),
            WindowsCheck::File { path, name, size, empty } => WindowsCheckView::File {
                path: path@,
                name: name@,
                size,
                empty,
            },
            WindowsCheck::Marker { path, name } => WindowsCheckView::Marker {
                path: path@,
                name: name@,
            },
            WindowsCheck::RawImage(path) => WindowsCheckView::RawImage(path@),
            WindowsCheck::OpenProgress(path) => WindowsCheckView::OpenProgress(path@),
            WindowsCheck::TruncateProgress => WindowsCheckView::TruncateProgress,
        }
    }
}

/// The views of some checks.
pub open spec fn check_views(checks: Seq<WindowsCheck>) -> Seq<WindowsCheckView> {
    checks.map_values(|check: WindowsCheck| check@)
}

// ---------------------------------------------------------------------------------------------
// What is to be checked
// ---------------------------------------------------------------------------------------------

/// A refusal for a reason.
pub open spec fn refusal(reason: Seq<char>) -> WindowsCheckView {
    WindowsCheckView::Refuse(WorkerErrorView::InvalidJob(reason))
}

/// A check of a member of the session directory, or the refusal of a path that is none.
pub open spec fn member_checks(
    directory: Seq<char>,
    path: Seq<char>,
    name: Seq<char>,
    checks: Seq<WindowsCheckView>,
) -> Seq<WindowsCheckView> {
    if windows_paths::is_local_member(path, directory, name) {
        checks
    } else {
        seq![
            refusal(name + " must be a direct member of the private session directory"@),
        ]
    }
}

/// A file of the session, with the session directory the same before and after.
pub open spec fn file_checks(
    directory: Seq<char>,
    path: Seq<char>,
    name: Seq<char>,
    size: Option<u64>,
    empty: bool,
) -> Seq<WindowsCheckView> {
    member_checks(
        directory,
        path,
        name,
        seq![
            WindowsCheckView::SameDirectory(directory),
            WindowsCheckView::File { path, name, size, empty },
            WindowsCheckView::SameDirectory(directory),
        ],
    )
}

/// A marker of the session.
pub open spec fn marker_checks(
    directory: Seq<char>,
    path: Option<Seq<char>>,
    name: Seq<char>,
) -> Seq<WindowsCheckView> {
    match path {
        None => seq![refusal("session marker "@ + name + " is missing from the job"@)],
        Some(path) => member_checks(
            directory,
            path,
            name,
            seq![
                WindowsCheckView::SameDirectory(directory),
                WindowsCheckView::Marker { path, name },
                WindowsCheckView::SameAfterMarker(directory),
            ],
        ),
    }
}

/// The progress file is opened only after it has been checked once more, and truncated only after
/// the opened file has been found to be the checked one.
pub open spec fn progress_checks(directory: Seq<char>, path: Seq<char>) -> Seq<WindowsCheckView> {
    file_checks(directory, path, "worker-progress.jsonl"@, Some(0), true) + seq![
        WindowsCheckView::OpenProgress(path),
        WindowsCheckView::SameDirectory(directory),
        WindowsCheckView::TruncateProgress,
    ]
}

/// The checks of the job file and of the raw image.
pub open spec fn input_plan(job: WorkerJob, job_path: Seq<char>, directory: Seq<char>) -> Seq<
    WindowsCheckView,
> {
    file_checks(directory, job_path, "worker-job.json"@, None, false) + file_checks(
        directory,
        job.raw_path@,
        "snapdog-os.img"@,
        Some(job.raw_size),
        false,
    )
}

/// The checks of the files over which a worker and its client talk.
pub open spec fn channel_plan(job: WorkerJob, progress: Seq<char>, directory: Seq<char>) -> Seq<
    WindowsCheckView,
> {
    file_checks(directory, progress, "worker-progress.jsonl"@, Some(0), true) + marker_checks(
        directory,
        text::optional_text(job.cancel_path),
        "cancel"@,
    ) + marker_checks(
        directory,
        text::optional_text(job.skip_verification_path),
        "skip-verification"@,
    )
}

/// The check of the job itself.
pub open spec fn job_plan(job: WorkerJob) -> Seq<WindowsCheckView> {
    match worker::text_fault(Platform::Windows, job) {
        Some(fault) => seq![WindowsCheckView::Refuse(fault)],
        None => seq![WindowsCheckView::RawImage(job.raw_path@)],
    }
}

/// The checks of the session behind its directory.
pub open spec fn member_plan(job: WorkerJob, job_path: Seq<char>, directory: Seq<char>) -> Seq<
    WindowsCheckView,
> {
    input_plan(job, job_path, directory) + match job.progress {
        ProgressDestination::Stdout => {
            seq![refusal("privileged jobs require a session progress file"@)]
        },
        ProgressDestination::File { path } => channel_plan(job, path@, directory) + job_plan(job)
            + progress_checks(directory, path@),
    }
}

/// The checks of the session that the job file at `job_path` lies in. Only a path below the root of
/// a local drive has a directory that a session can use.
pub open spec fn session_plan(job: WorkerJob, job_path: Seq<char>) -> Seq<WindowsCheckView> {
    match windows_paths::drive_path(job.raw_path@) {
        None => if windows_paths::has_parent(job.raw_path@) {
            seq![refusal("session directory path is not canonical"@)]
        } else {
            seq![refusal("raw image has no parent directory"@)]
        },
        Some(raw) => if raw.parts.len() == 0 {
            seq![refusal("raw image has no parent directory"@)]
        } else {
            let directory = windows_paths::local_text(
                windows_paths::LocalPath { parts: raw.parts.drop_last(), ..raw },
            );
            if windows_paths::local_path(directory) is None {
                seq![refusal("session directory path is not canonical"@)]
            } else {
                seq![WindowsCheckView::FixedDisk(directory), WindowsCheckView::Directory(directory)]
                    + member_plan(job, job_path, directory)
            }
        },
    }
}

/// Everything that is checked before a job starts.
pub open spec fn preflight_plan(job: WorkerJob, arguments: Seq<String>) -> Seq<WindowsCheckView> {
    match worker::arguments_fault(Platform::Windows, arguments) {
        Some(fault) => seq![WindowsCheckView::Refuse(fault)],
        None => session_plan(job, arguments[2]@),
    }
}

fn refuse(checks: &mut Vec<WindowsCheck>, error: WorkerError)
    ensures
        check_views(final(checks)@) == check_views(old(checks)@).push(
            WindowsCheckView::Refuse(error@),
        ),
{
    add_check(checks, WindowsCheck::Refuse(error));
}

fn add_check(checks: &mut Vec<WindowsCheck>, check: WindowsCheck)
    ensures
        check_views(final(checks)@) == check_views(old(checks)@).push(check@),
{
    let ghost before = check_views(checks@);
    checks.push(check);
    assert(check_views(checks@) =~= before.push(check@));
}

/// Lays out the checks of one session.
struct Planner {
    directory: String,
    checks: Vec<WindowsCheck>,
}

impl Planner {
    spec fn planned(self) -> Seq<WindowsCheckView> {
        check_views(self.checks@)
    }

    /// Whether a path is a member of the session; the refusal is planned where it is none.
    fn member(&mut self, path: &str, name: &str) -> (is_member: bool)
        ensures
            is_member == windows_paths::is_local_member(path@, old(self).directory@, name@),
            final(self).directory == old(self).directory,
            is_member ==> final(self).planned() == old(self).planned(),
            forall|checks: Seq<WindowsCheckView>|
                !is_member ==> final(self).planned() == old(self).planned()
                    + #[trigger] member_checks(old(self).directory@, path@, name@, checks),
    {
        if is_local_member_path(path, self.directory.as_str(), name) {
            return true;
        }
        let ghost before = self.planned();
        refuse(
            &mut self.checks,
            invalid_session2(name, " must be a direct member of the private session directory"),
        );
        assert forall|checks: Seq<WindowsCheckView>| self.planned() == before
            + #[trigger] member_checks(self.directory@, path@, name@, checks) by {
            assert(self.planned() =~= before + member_checks(
                self.directory@,
                path@,
                name@,
                checks,
            ));
        }
        false
    }

    fn file(&mut self, path: &str, name: &'static str, size: Option<u64>, empty: bool)
        ensures
            final(self).directory == old(self).directory,
            final(self).planned() == old(self).planned() + file_checks(
                old(self).directory@,
                path@,
                name@,
                size,
                empty,
            ),
    {
        let ghost before = self.planned();
        if self.member(path, name) {
            add_check(&mut self.checks, WindowsCheck::SameDirectory(self.directory.clone()));
            let path = path.to_owned();
            add_check(&mut self.checks, WindowsCheck::File { path, name, size, empty });
            add_check(&mut self.checks, WindowsCheck::SameDirectory(self.directory.clone()));
        }
        assert(self.planned() =~= before + file_checks(self.directory@, path@, name@, size, empty));
    }

    fn marker(&mut self, path: &Option<String>, name: &'static str)
        ensures
            final(self).directory == old(self).directory,
            final(self).planned() == old(self).planned() + marker_checks(
                old(self).directory@,
                text::optional_text(*path),
                name@,
            ),
    {
        let ghost before = self.planned();
        match path {
            None => {
                let start = join2("session marker ", name);
                refuse(
                    &mut self.checks,
                    invalid_session2(start.as_str(), " is missing from the job"),
                );
            },
            Some(path) => {
                if self.member(path.as_str(), name) {
                    let directory = self.directory.clone();
                    add_check(&mut self.checks, WindowsCheck::SameDirectory(directory));
                    let path = path.clone();
                    add_check(&mut self.checks, WindowsCheck::Marker { path, name });
                    let directory = self.directory.clone();
                    add_check(&mut self.checks, WindowsCheck::SameAfterMarker(directory));
                }
            },
        }
        assert(self.planned() =~= before + marker_checks(
            self.directory@,
            text::optional_text(*path),
            name@,
        ));
    }

    fn progress(&mut self, path: &str)
        ensures
            final(self).directory == old(self).directory,
            final(self).planned() == old(self).planned() + progress_checks(
                old(self).directory@,
                path@,
            ),
    {
        let ghost before = self.planned();
        self.file(path, "worker-progress.jsonl", Some(0), true);
        add_check(&mut self.checks, WindowsCheck::OpenProgress(path.to_owned()));
        add_check(&mut self.checks, WindowsCheck::SameDirectory(self.directory.clone()));
        add_check(&mut self.checks, WindowsCheck::TruncateProgress);
        assert(self.planned() =~= before + progress_checks(self.directory@, path@));
    }

    fn inputs(&mut self, job: &WorkerJob, job_path: &str)
        ensures
            final(self).directory == old(self).directory,
            final(self).planned() == old(self).planned() + input_plan(
                *job,
                job_path@,
                old(self).directory@,
            ),
    {
        self.file(job_path, "worker-job.json", None, false);
        self.file(job.raw_path.as_str(), "snapdog-os.img", Some(job.raw_size), false);
        proof {
            appended_in_order();
        }
    }

    fn channels(&mut self, job: &WorkerJob, progress: &str)
        ensures
            final(self).directory == old(self).directory,
            final(self).planned() == old(self).planned() + channel_plan(
                *job,
                progress@,
                old(self).directory@,
            ),
    {
        self.file(progress, "worker-progress.jsonl", Some(0), true);
        self.marker(&job.cancel_path, "cancel");
        self.marker(&job.skip_verification_path, "skip-verification");
        proof {
            appended_in_order();
        }
    }

    fn job(&mut self, job: &WorkerJob)
        ensures
            final(self).directory == old(self).directory,
            final(self).planned() == old(self).planned() + job_plan(*job),
    {
        let ghost before = self.planned();
        match validate_job_text(Platform::Windows, job) {
            Err(error) => refuse(&mut self.checks, error),
            Ok(()) => add_check(&mut self.checks, WindowsCheck::RawImage(job.raw_path.clone())),
        }
        assert(self.planned() =~= before + job_plan(*job));
    }

    fn members(&mut self, job: &WorkerJob, job_path: &str)
        ensures
            final(self).planned() == old(self).planned() + member_plan(
                *job,
                job_path@,
                old(self).directory@,
            ),
    {
        let ghost before = self.planned();
        self.inputs(job, job_path);
        let ghost inputs = input_plan(*job, job_path@, self.directory@);
        match &job.progress {
            ProgressDestination::Stdout => {
                let reason = "privileged jobs require a session progress file";
                refuse(&mut self.checks, invalid_session(reason));
                assert(self.planned() =~= before + (inputs + seq![refusal(reason@)]));
            },
            ProgressDestination::File { path } => {
                self.channels(job, path.as_str());
                self.job(job);
                self.progress(path.as_str());
                proof {
                    appended_in_order();
                }
            },
        }
    }
}

proof fn appended_in_order()
    ensures
        forall|a: Seq<WindowsCheckView>, b: Seq<WindowsCheckView>, c: Seq<WindowsCheckView>|
            #[trigger] ((a + b) + c) == a + (b + c),
{
    assert forall|a: Seq<WindowsCheckView>, b: Seq<WindowsCheckView>, c: Seq<WindowsCheckView>|
        #[trigger] ((a + b) + c) == a + (b + c) by {
        assert((a + b) + c =~= a + (b + c));
    }
}

fn plan_session(job: &WorkerJob, job_path: &str) -> (checks: Vec<WindowsCheck>)
    ensures
        check_views(checks@) == session_plan(*job, job_path@),
{
    let mut checks: Vec<WindowsCheck> = Vec::new();
    assert(check_views(checks@) =~= Seq::<WindowsCheckView>::empty());
    let raw = match parse_drive_path(job.raw_path.as_str()) {
        Some(raw) => raw,
        None => {
            if lies_in_directory(job.raw_path.as_str()) {
                refuse(&mut checks, invalid_session("session directory path is not canonical"));
            } else {
                refuse(&mut checks, invalid_session("raw image has no parent directory"));
            }
            assert(check_views(checks@) =~= session_plan(*job, job_path@));
            return checks;
        },
    };
    assert(raw@.parts.len() == raw.parts@.len());
    if raw.parts.len() == 0 {
        refuse(&mut checks, invalid_session("raw image has no parent directory"));
        assert(check_views(checks@) =~= session_plan(*job, job_path@));
        return checks;
    }
    let directory = local_parent(&raw);
    if !is_clean_windows_absolute_path(directory.as_str()) {
        refuse(&mut checks, invalid_session("session directory path is not canonical"));
        assert(check_views(checks@) =~= session_plan(*job, job_path@));
        return checks;
    }
    add_check(&mut checks, WindowsCheck::FixedDisk(directory.clone()));
    add_check(&mut checks, WindowsCheck::Directory(directory.clone()));
    let mut planner = Planner { directory, checks };
    planner.members(job, job_path);
    assert(check_views(planner.checks@) =~= session_plan(*job, job_path@));
    planner.checks
}

fn plan_preflight(job: &WorkerJob, arguments: &Vec<String>) -> (checks: Vec<WindowsCheck>)
    ensures
        check_views(checks@) == preflight_plan(*job, arguments@),
{
    match current_worker_job_path(Platform::Windows, arguments) {
        Err(error) => {
            let mut checks: Vec<WindowsCheck> = Vec::new();
            refuse(&mut checks, error);
            assert(check_views(checks@) =~= preflight_plan(*job, arguments@));
            checks
        },
        Ok(job_path) => plan_session(job, job_path.as_str()),
    }
}

// ---------------------------------------------------------------------------------------------
// What is found
// ---------------------------------------------------------------------------------------------

/// What was found.
#[derive(Debug)]
pub enum WindowsSessionEvent {
    /// Whether the drive of the path is a ready local fixed disk.
    Drive(bool),
    /// A look at the path.
    Looked(Result<WindowsFileFacts, LookFailure>),
    /// A look at the session directory, and what opening a handle of it came to.
    Pinned(Result<WindowsFileFacts, LookFailure>, Result<(), String>),
    /// A look at the session directory, and whether a new handle of it is that of the first one.
    Compared(Result<WindowsFileFacts, LookFailure>, Result<bool, String>),
    /// A handle of the path was taken, the file opened and looked at, and the two handles
    /// compared; or the first of the former that failed.
    Opened(Result<(WindowsFileFacts, Result<bool, String>), String>),
    /// The opened file was truncated.
    Truncated(Result<(), String>),
}

impl WindowsCheckView {
    /// Whether an event answers what the check asks for.
    pub open spec fn expects(self, event: WindowsSessionEvent) -> bool {
        match self {
            WindowsCheckView::Refuse(_) => false,
            WindowsCheckView::FixedDisk(_) => event is Drive,
            WindowsCheckView::Directory(_) => event is Pinned,
            WindowsCheckView::SameDirectory(_) => event is Compared,
            WindowsCheckView::SameAfterMarker(_) => event is Compared,
            WindowsCheckView::OpenProgress(_) => event is Opened,
            WindowsCheckView::TruncateProgress => event is Truncated,
            _ => event is Looked,
        }
    }
}

/// An invalid job, for this reason.
pub open spec fn invalid(reason: Seq<char>) -> Option<WorkerErrorView> {
    Some(WorkerErrorView::InvalidJob(reason))
}

/// Why a path that was looked at is refused.
pub open spec fn look_fault(
    job: WorkerJob,
    check: WindowsCheckView,
    look: Result<WindowsFileFacts, LookFailure>,
) -> Option<WorkerErrorView> {
    match check {
        WindowsCheckView::File { name, size, empty, .. } => match look {
            Ok(facts) => entry_reason(facts, false, size, empty, name),
            Err(failure) => invalid(name + " is unavailable: "@ + failure.text()),
        },
        WindowsCheckView::Marker { name, .. } => match look {
            Ok(facts) => entry_reason(facts, false, Some(0), true, name),
            Err(failure) => if failure is NotFound {
                None
            } else {
                invalid("session marker "@ + name + " is unavailable: "@ + failure.text())
            },
        },
        _ => match look {
            Ok(facts) => worker::raw_image_fault(
                job,
                Ok(
                    worker::RawImageFacts {
                        is_symlink: facts.is_symlink,
                        is_file: facts.is_file,
                        length: facts.length,
                    },
                ),
            ),
            Err(failure) => invalid("raw image is not readable: "@ + failure.text()),
        },
    }
}

/// Why what was found is refused.
pub open spec fn session_fault(
    job: WorkerJob,
    check: WindowsCheckView,
    event: WindowsSessionEvent,
) -> Option<WorkerErrorView> {
    match event {
        WindowsSessionEvent::Drive(fixed) => if fixed {
            None
        } else {
            invalid("worker session must be stored on a ready local fixed disk"@)
        },
        WindowsSessionEvent::Looked(look) => look_fault(job, check, look),
        WindowsSessionEvent::Pinned(look, pinned) => match look {
            Err(failure) => invalid("session directory is unavailable: "@ + failure.text()),
            Ok(facts) => match entry_reason(facts, true, None, false, "session directory"@) {
                Some(fault) => Some(fault),
                None => match pinned {
                    Err(cause) => invalid("could not pin session directory: "@ + cause@),
                    Ok(_) => None,
                },
            },
        },
        WindowsSessionEvent::Compared(look, same) => match look {
            Err(failure) => invalid("session directory changed: "@ + failure.text()),
            Ok(facts) => match entry_reason(facts, true, None, false, "session directory"@) {
                Some(fault) => Some(fault),
                None => match same {
                    Err(cause) => invalid("session directory changed: "@ + cause@),
                    Ok(true) => None,
                    Ok(false) => invalid("session directory changed during authorization"@),
                },
            },
        },
        WindowsSessionEvent::Opened(Err(cause)) => Some(WorkerErrorView::Progress(cause@)),
        WindowsSessionEvent::Opened(Ok((facts, same))) => match entry_reason(
            facts,
            false,
            Some(0),
            true,
            "worker-progress.jsonl"@,
        ) {
            Some(fault) => Some(fault),
            None => match same {
                Err(cause) => Some(WorkerErrorView::Progress(cause@)),
                Ok(true) => None,
                Ok(false) => invalid("progress path changed while it was opened"@),
            },
        },
        WindowsSessionEvent::Truncated(Err(cause)) => Some(WorkerErrorView::Progress(cause@)),
        WindowsSessionEvent::Truncated(Ok(_)) => None,
    }
}

/// How many checks an event settles: where a marker is not there, the session directory is not
/// looked at again on its account.
pub open spec fn settled(plan: Seq<WindowsCheckView>, due: int, event: WindowsSessionEvent) -> nat {
    if plan[due] is Marker && (event matches WindowsSessionEvent::Looked(Err(_))) && due + 1
        < plan.len() && plan[due + 1] is SameAfterMarker {
        2
    } else {
        1
    }
}

fn judge_look(
    job: &WorkerJob,
    check: &WindowsCheck,
    look: &Result<WindowsFileFacts, LookFailure>,
) -> (result: Result<(), WorkerError>)
    ensures
        worker::is_verdict(result, look_fault(*job, check@, *look)),
{
    match check {
        WindowsCheck::File { name, size, empty, .. } => match look {
            Ok(facts) => validate_windows_metadata(facts, false, *size, *empty, name),
            Err(failure) => {
                let start = join2(name, " is unavailable: ");
                Err(invalid_session2(start.as_str(), failure.cause()))
            },
        },
        WindowsCheck::Marker { name, .. } => match look {
            Ok(facts) => validate_windows_metadata(facts, false, Some(0), true, name),
            Err(failure) => match failure {
                LookFailure::NotFound(_) => Ok(()),
                LookFailure::Failed(_) => {
                    let start = join3("session marker ", name, " is unavailable: ");
                    Err(invalid_session2(start.as_str(), failure.cause()))
                },
            },
        },
        _ => match look {
            Ok(facts) => {
                if facts.is_symlink || !facts.is_file {
                    return Err(
                        invalid_session("raw image path must be a non-symlink regular file"),
                    );
                }
                if facts.length != job.raw_size {
                    return Err(invalid_session("raw image size changed after preparation"));
                }
                Ok(())
            },
            Err(failure) => Err(invalid_session2("raw image is not readable: ", failure.cause())),
        },
    }
}

fn judge_pin(look: &Result<WindowsFileFacts, LookFailure>, pinned: &Result<(), String>) -> (result:
    Result<(), WorkerError>)
    ensures
        forall|job: WorkerJob, check: WindowsCheckView|
            worker::is_verdict(
                result,
                #[trigger] session_fault(job, check, WindowsSessionEvent::Pinned(*look, *pinned)),
            ),
{
    match look {
        Err(failure) => Err(invalid_session2("session directory is unavailable: ", failure.cause())),
        Ok(facts) => match validate_windows_metadata(facts, true, None, false, "session directory") {
            Err(error) => Err(error),
            Ok(()) => match pinned {
                Err(cause) => Err(
                    invalid_session2("could not pin session directory: ", cause.as_str()),
                ),
                Ok(()) => Ok(()),
            },
        },
    }
}

/// Check that the session directory is still the one that was seen first.
pub fn ensure_directory_unchanged(
    look: &Result<WindowsFileFacts, LookFailure>,
    same: &Result<bool, String>,
) -> (result: Result<(), WorkerError>)
    ensures
        forall|job: WorkerJob, check: WindowsCheckView|
            worker::is_verdict(
                result,
                #[trigger] session_fault(job, check, WindowsSessionEvent::Compared(*look, *same)),
            ),
{
    match look {
        Err(failure) => Err(invalid_session2("session directory changed: ", failure.cause())),
        Ok(facts) => match validate_windows_metadata(facts, true, None, false, "session directory") {
            Err(error) => Err(error),
            Ok(()) => match same {
                Err(cause) => Err(invalid_session2("session directory changed: ", cause.as_str())),
                Ok(true) => Ok(()),
                Ok(false) => Err(
                    invalid_session("session directory changed during authorization"),
                ),
            },
        },
    }
}

fn judge_opened(opened: &Result<(WindowsFileFacts, Result<bool, String>), String>) -> (result:
    Result<(), WorkerError>)
    ensures
        forall|job: WorkerJob, check: WindowsCheckView|
            worker::is_verdict(
                result,
                #[trigger] session_fault(job, check, WindowsSessionEvent::Opened(*opened)),
            ),
{
    match opened {
        Err(cause) => Err(WorkerError::Progress(cause.clone())),
        Ok((facts, same)) => {
            match validate_windows_metadata(facts, false, Some(0), true, "worker-progress.jsonl") {
                Err(error) => Err(error),
                Ok(()) => match same {
                    Err(cause) => Err(WorkerError::Progress(cause.clone())),
                    Ok(true) => Ok(()),
                    Ok(false) => Err(
                        invalid_session("progress path changed while it was opened"),
                    ),
                },
            }
        },
    }
}

fn judge(job: &WorkerJob, check: &WindowsCheck, event: &WindowsSessionEvent) -> (result: Result<
    (),
    WorkerError,
>)
    ensures
        worker::is_verdict(result, session_fault(*job, check@, *event)),
{
    match event {
        WindowsSessionEvent::Drive(fixed) => {
            if !*fixed {
                return Err(
                    invalid_session("worker session must be stored on a ready local fixed disk"),
                );
            }
            Ok(())
        },
        WindowsSessionEvent::Looked(look) => judge_look(job, check, look),
        WindowsSessionEvent::Pinned(look, pinned) => judge_pin(look, pinned),
        WindowsSessionEvent::Compared(look, same) => ensure_directory_unchanged(look, same),
        WindowsSessionEvent::Opened(opened) => judge_opened(opened),
        WindowsSessionEvent::Truncated(Err(cause)) => Err(WorkerError::Progress(cause.clone())),
        WindowsSessionEvent::Truncated(Ok(())) => Ok(()),
    }
}

// ---------------------------------------------------------------------------------------------
// One check after the other
// ---------------------------------------------------------------------------------------------

/// What to do next.
#[derive(Debug)]
pub enum WindowsPreflightAction {
    /// Find out whether the drive of the path is a ready local fixed disk.
    CheckDrive(String),
    /// Look at the path without following a final link.
    Look(String),
    /// Look at the directory, and keep a handle of it.
    Pin(String),
    /// Look at the directory, and compare a new handle of it with the one that was kept.
    Compare(String),
    /// Take a handle of the path, open the file for writing, look at the opened file, and compare
    /// its handle with the former.
    OpenProgress(String),
    /// Truncate the opened progress file.
    TruncateProgress,
    /// Everything has been checked: start the job.
    Start,
    /// Report the error.
    Fail(WorkerError),
}

/// What a [`WindowsPreflightAction`] holds.
pub enum WindowsPreflightActionView {
    CheckDrive(Seq<char>),
    Look(Seq<char>),
    Pin(Seq<char>),
    Compare(Seq<char>),
    OpenProgress(Seq<char>),
    TruncateProgress,
    Start,
    Fail(WorkerErrorView),
}

impl View for WindowsPreflightAction {
    type V = WindowsPreflightActionView;

    open spec fn view(&self) -> WindowsPreflightActionView {
        match *self {
            WindowsPreflightAction::CheckDrive(path) => WindowsPreflightActionView::CheckDrive(
                path@,
            ),
            WindowsPreflightAction::Look(path) => WindowsPreflightActionView::Look(path@),
            WindowsPreflightAction::Pin(path) => WindowsPreflightActionView::Pin(path@),
            WindowsPreflightAction::Compare(path) => WindowsPreflightActionView::Compare(path@),
            WindowsPreflightAction::OpenProgress(path) => WindowsPreflightActionView::OpenProgress(
                path@,
            ),
            WindowsPreflightAction::TruncateProgress => {
                WindowsPreflightActionView::TruncateProgress
            },
            WindowsPreflightAction::Start => WindowsPreflightActionView::Start,
            WindowsPreflightAction::Fail(error) => WindowsPreflightActionView::Fail(error@),
        }
    }
}

impl WindowsCheckView {
    /// What a check asks for.
    pub open spec fn action(self) -> WindowsPreflightActionView {
        match self {
            WindowsCheckView::Refuse(fault) => WindowsPreflightActionView::Fail(fault),
            WindowsCheckView::FixedDisk(path) => WindowsPreflightActionView::CheckDrive(path),
            WindowsCheckView::Directory(path) => WindowsPreflightActionView::Pin(path),
            WindowsCheckView::SameDirectory(path) => WindowsPreflightActionView::Compare(path),
            WindowsCheckView::SameAfterMarker(path) => WindowsPreflightActionView::Compare(path),
            WindowsCheckView::File { path, .. } => WindowsPreflightActionView::Look(path),
            WindowsCheckView::Marker { path, .. } => WindowsPreflightActionView::Look(path),
            WindowsCheckView::RawImage(path) => WindowsPreflightActionView::Look(path),
            WindowsCheckView::OpenProgress(path) => WindowsPreflightActionView::OpenProgress(path),
            WindowsCheckView::TruncateProgress => WindowsPreflightActionView::TruncateProgress,
        }
    }
}

/// The state of the checks before a job.
pub struct WindowsPreflightState {
    pub job: WorkerJob,
    pub plan: Seq<WindowsCheckView>,
    /// How many checks have been settled.
    pub settled: nat,
    /// Whether a check was not passed.
    pub refused: bool,
}

impl WindowsPreflightState {
    /// Whether the event answers the check that is due.
    pub open spec fn expects(self, event: WindowsSessionEvent) -> bool {
        !self.refused && self.settled < self.plan.len() && self.plan[self.settled as int].expects(
            event,
        )
    }

    /// The check that is due, or the start where none is left.
    pub open spec fn next(self) -> (WindowsPreflightState, WindowsPreflightActionView) {
        if self.settled >= self.plan.len() {
            (self, WindowsPreflightActionView::Start)
        } else if self.plan[self.settled as int] is Refuse {
            (
                WindowsPreflightState { refused: true, ..self },
                self.plan[self.settled as int].action(),
            )
        } else {
            (self, self.plan[self.settled as int].action())
        }
    }

    /// What follows on an event.
    pub open spec fn step(self, event: WindowsSessionEvent) -> (
        WindowsPreflightState,
        WindowsPreflightActionView,
    ) {
        let check = self.plan[self.settled as int];
        match session_fault(self.job, check, event) {
            Some(fault) => (
                WindowsPreflightState { refused: true, ..self },
                WindowsPreflightActionView::Fail(fault),
            ),
            None => WindowsPreflightState {
                settled: self.settled + settled(self.plan, self.settled as int, event),
                ..self
            }.next(),
        }
    }
}

/// How the checks before a job begin.
pub open spec fn preflight_start(job: WorkerJob, arguments: Seq<String>) -> (
    WindowsPreflightState,
    WindowsPreflightActionView,
) {
    WindowsPreflightState {
        job,
        plan: preflight_plan(job, arguments),
        settled: 0,
        refused: false,
    }.next()
}

/// The checks that a privileged Windows worker makes before it starts a job.
pub struct WindowsPreflight<'a> {
    job: &'a WorkerJob,
    plan: Vec<WindowsCheck>,
    settled: usize,
    refused: bool,
}

impl<'a> View for WindowsPreflight<'a> {
    type V = WindowsPreflightState;

    closed spec fn view(&self) -> WindowsPreflightState {
        WindowsPreflightState {
            job: *self.job,
            plan: check_views(self.plan@),
            settled: self.settled as nat,
            refused: self.refused,
        }
    }
}

impl<'a> WindowsPreflight<'a> {
    /// Begin the checks of a job that a worker process with these arguments was given.
    pub fn start(job: &'a WorkerJob, arguments: &Vec<String>) -> (result: (
        WindowsPreflight<'a>,
        WindowsPreflightAction,
    ))
        ensures
            (result.0@, result.1@) == preflight_start(*job, arguments@),
    {
        let mut preflight = WindowsPreflight {
            job,
            plan: plan_preflight(job, arguments),
            settled: 0,
            refused: false,
        };
        let action = preflight.next();
        (preflight, action)
    }

    fn next(&mut self) -> (action: WindowsPreflightAction)
        ensures
            (final(self)@, action@) == old(self)@.next(),
    {
        if self.settled >= self.plan.len() {
            return WindowsPreflightAction::Start;
        }
        assert(self@.plan[self.settled as int] == self.plan@[self.settled as int]@);
        match &self.plan[self.settled] {
            WindowsCheck::Refuse(error) => {
                let error = error.copy();
                self.refused = true;
                WindowsPreflightAction::Fail(error)
            },
            WindowsCheck::FixedDisk(path) => WindowsPreflightAction::CheckDrive(path.clone()),
            WindowsCheck::Directory(path) => WindowsPreflightAction::Pin(path.clone()),
            WindowsCheck::SameDirectory(path) => WindowsPreflightAction::Compare(path.clone()),
            WindowsCheck::SameAfterMarker(path) => WindowsPreflightAction::Compare(path.clone()),
            WindowsCheck::File { path, .. } => WindowsPreflightAction::Look(path.clone()),
            WindowsCheck::Marker { path, .. } => WindowsPreflightAction::Look(path.clone()),
            WindowsCheck::RawImage(path) => WindowsPreflightAction::Look(path.clone()),
            WindowsCheck::OpenProgress(path) => WindowsPreflightAction::OpenProgress(path.clone()),
            WindowsCheck::TruncateProgress => WindowsPreflightAction::TruncateProgress,
        }
    }

    /// What to do next after a check was made.
    pub fn step(&mut self, event: &WindowsSessionEvent) -> (action: WindowsPreflightAction)
        requires
            old(self)@.expects(*event),
        ensures
            (final(self)@, action@) == old(self)@.step(*event),
    {
        let count: usize = self.plan.len();
        let ghost due = self.plan@[self.settled as int];
        assert(self@.plan[self.settled as int] == due@);
        let check = &self.plan[self.settled];
        match judge(self.job, check, event) {
            Err(error) => {
                self.refused = true;
                WindowsPreflightAction::Fail(error)
            },
            Ok(()) => {
                let absent = match (check, event) {
                    (WindowsCheck::Marker { .. }, WindowsSessionEvent::Looked(Err(_))) => true,
                    _ => false,
                };
                let after: usize = self.settled + 1;
                self.settled = after;
                if absent && after < count {
                    assert(self@.plan[after as int] == self.plan@[after as int]@);
                    if matches!(&self.plan[after], WindowsCheck::SameAfterMarker(_)) {
                        self.settled = after + 1;
                    }
                }
                self.next()
            },
        }
    }
}

// ---------------------------------------------------------------------------------------------
// What holds of a session that was accepted
// ---------------------------------------------------------------------------------------------

/// The state after a run of events.
pub open spec fn preflight_after(start: WindowsPreflightState, events: Seq<WindowsSessionEvent>) ->
    WindowsPreflightState
    decreases events.len(),
{
    if events.len() == 0 {
        start
    } else {
        preflight_after(start, events.drop_last()).step(events.last()).0
    }
}

/// Whether every event of the run answers the check that was due.
pub open spec fn preflight_accepts(
    start: WindowsPreflightState,
    events: Seq<WindowsSessionEvent>,
) -> bool
    decreases events.len(),
{
    events.len() == 0 || (preflight_accepts(start, events.drop_last()) && preflight_after(
        start,
        events.drop_last(),
    ).expects(events.last()))
}

/// The check that is due after the first events of a run that was never refused.
pub open spec fn due_after(plan: Seq<WindowsCheckView>, events: Seq<WindowsSessionEvent>) -> nat
    decreases events.len(),
{
    if events.len() == 0 {
        0
    } else {
        let due = due_after(plan, events.drop_last());
        due + settled(plan, due as int, events.last())
    }
}

/// Whether a check of a plan was passed in a run of events.
pub open spec fn was_passed(
    job: WorkerJob,
    plan: Seq<WindowsCheckView>,
    events: Seq<WindowsSessionEvent>,
    check: int,
) -> bool {
    exists|i: int|
        #![trigger events[i]]
        0 <= i < events.len() && due_after(plan, events.take(i)) == check && session_fault(
            job,
            plan[check],
            events[i],
        ) is None
}

/// Whether a check of a plan was left out in a run of events: it is a look at the session directory
/// on account of a marker that was not there.
pub open spec fn was_left_out(
    plan: Seq<WindowsCheckView>,
    events: Seq<WindowsSessionEvent>,
    check: int,
) -> bool {
    &&& check > 0
    &&& plan[check] is SameAfterMarker
    &&& plan[check - 1] is Marker
    &&& exists|i: int|
        #![trigger events[i]]
        0 <= i < events.len() && due_after(plan, events.take(i)) == check - 1 && (events[i] matches
            WindowsSessionEvent::Looked(Err(_)))
}

/// Whether a check of a plan was passed or left out in a run of events.
pub open spec fn was_settled(
    job: WorkerJob,
    plan: Seq<WindowsCheckView>,
    events: Seq<WindowsSessionEvent>,
    check: int,
) -> bool {
    was_passed(job, plan, events, check) || was_left_out(plan, events, check)
}

proof fn settled_stays_settled(
    job: WorkerJob,
    plan: Seq<WindowsCheckView>,
    events: Seq<WindowsSessionEvent>,
    check: int,
)
    requires
        events.len() > 0,
        was_settled(job, plan, events.drop_last(), check),
    ensures
        was_settled(job, plan, events, check),
{
    let head = events.drop_last();
    if was_passed(job, plan, head, check) {
        let i = choose|i: int|
            #![trigger head[i]]
            0 <= i < head.len() && due_after(plan, head.take(i)) == check && session_fault(
                job,
                plan[check],
                head[i],
            ) is None;
        assert(head.take(i) =~= events.take(i));
        assert(events[i] == head[i]);
    } else {
        let i = choose|i: int|
            #![trigger head[i]]
            0 <= i < head.len() && due_after(plan, head.take(i)) == check - 1 && (head[i] matches
                WindowsSessionEvent::Looked(Err(_)));
        assert(head.take(i) =~= events.take(i));
        assert(events[i] == head[i]);
    }
}

proof fn passed_in_order(start: WindowsPreflightState, events: Seq<WindowsSessionEvent>)
    requires
        start.settled == 0,
        preflight_accepts(start, events),
        !preflight_after(start, events).refused,
    ensures
        preflight_after(start, events) == (WindowsPreflightState {
            settled: due_after(start.plan, events),
            ..start
        }),
        forall|k: int|
            0 <= k < due_after(start.plan, events) && k < start.plan.len()
                ==> #[trigger] was_settled(start.job, start.plan, events, k),
    decreases events.len(),
{
    if events.len() > 0 {
        let plan = start.plan;
        let head = events.drop_last();
        passed_in_order(start, head);
        let due = due_after(plan, head) as int;
        assert(events.take(head.len() as int) =~= head);
        assert(events[events.len() - 1] == events.last());
        assert forall|k: int|
            0 <= k < due_after(plan, events) && k < plan.len() implies #[trigger] was_settled(
            start.job,
            plan,
            events,
            k,
        ) by {
            if k < due {
                settled_stays_settled(start.job, plan, events, k);
            } else if k == due {
                assert(was_passed(start.job, plan, events, k));
            } else {
                assert(was_left_out(plan, events, k));
            }
        }
    }
}

/// A job starts only after every check of its plan was passed. Only a look at the session directory
/// on account of a marker may be left out, and only where that marker was not there.
pub proof fn started_windows_job_passed_every_check(
    start: WindowsPreflightState,
    events: Seq<WindowsSessionEvent>,
    event: WindowsSessionEvent,
    check: int,
)
    requires
        start.settled == 0,
        preflight_accepts(start, events.push(event)),
        preflight_after(start, events).step(event).1 is Start,
        0 <= check < start.plan.len(),
    ensures
        was_settled(start.job, start.plan, events.push(event), check),
{
    let all = events.push(event);
    assert(all.drop_last() =~= events);
    assert(preflight_after(start, all) == preflight_after(start, events).step(event).0);
    passed_before(start, events);
    passed_in_order(start, all);
}

proof fn passed_before(start: WindowsPreflightState, events: Seq<WindowsSessionEvent>)
    requires
        preflight_accepts(start, events),
    ensures
        preflight_after(start, events).plan == start.plan,
        preflight_after(start, events).job == start.job,
    decreases events.len(),
{
    if events.len() > 0 {
        passed_before(start, events.drop_last());
    }
}

/// Whether none of some checks refuses the job for what it says.
pub open spec fn refuses_nothing(plan: Seq<WindowsCheckView>) -> bool {
    forall|i: int| 0 <= i < plan.len() ==> !(#[trigger] plan[i] is Refuse)
}

/// Whether every file that a job names, and the job file itself, is the member of one directory on
/// a local drive with the name that the file has in every session.
pub open spec fn names_only_session_members(job: WorkerJob, job_path: Seq<char>) -> bool {
    match windows_paths::drive_path(job.raw_path@) {
        None => false,
        Some(raw) => {
            let directory = windows_paths::local_text(
                windows_paths::LocalPath { parts: raw.parts.drop_last(), ..raw },
            );
            &&& raw.parts.len() > 0
            &&& windows_paths::is_local_member(job_path, directory, "worker-job.json"@)
            &&& windows_paths::is_local_member(job.raw_path@, directory, "snapdog-os.img"@)
            &&& job.progress matches ProgressDestination::File { path }
                && windows_paths::is_local_member(path@, directory, "worker-progress.jsonl"@)
            &&& job.cancel_path matches Some(path) && windows_paths::is_local_member(
                path@,
                directory,
                "cancel"@,
            )
            &&& job.skip_verification_path matches Some(path) && windows_paths::is_local_member(
                path@,
                directory,
                "skip-verification"@,
            )
        },
    }
}

proof fn nothing_refused_in_either(first: Seq<WindowsCheckView>, second: Seq<WindowsCheckView>)
    requires
        refuses_nothing(first + second),
    ensures
        refuses_nothing(first),
        refuses_nothing(second),
{
    assert forall|i: int| 0 <= i < first.len() implies !(#[trigger] first[i] is Refuse) by {
        assert((first + second)[i] == first[i]);
    }
    assert forall|i: int| 0 <= i < second.len() implies !(#[trigger] second[i] is Refuse) by {
        assert((first + second)[first.len() + i] == second[i]);
    }
}

proof fn unrefused_file_is_a_member(
    directory: Seq<char>,
    path: Seq<char>,
    name: Seq<char>,
    size: Option<u64>,
    empty: bool,
)
    requires
        refuses_nothing(file_checks(directory, path, name, size, empty)),
    ensures
        windows_paths::is_local_member(path, directory, name),
{
    if !windows_paths::is_local_member(path, directory, name) {
        assert(file_checks(directory, path, name, size, empty)[0] is Refuse);
    }
}

proof fn unrefused_marker_is_a_member(directory: Seq<char>, path: Option<Seq<char>>, name: Seq<char>)
    requires
        refuses_nothing(marker_checks(directory, path, name)),
    ensures
        path matches Some(marker) && windows_paths::is_local_member(marker, directory, name),
{
    if !(path matches Some(marker) && windows_paths::is_local_member(marker, directory, name)) {
        assert(marker_checks(directory, path, name)[0] is Refuse);
    }
}

proof fn unrefused_job_names_members(job: WorkerJob, job_path: Seq<char>)
    requires
        refuses_nothing(session_plan(job, job_path)),
    ensures
        names_only_session_members(job, job_path),
        worker::text_fault(Platform::Windows, job) is None,
{
    let plan = session_plan(job, job_path);
    let raw = windows_paths::drive_path(job.raw_path@);
    if raw is None || raw->0.parts.len() == 0 {
        assert(plan[0] is Refuse);
    }
    let directory = windows_paths::local_text(
        windows_paths::LocalPath { parts: raw->0.parts.drop_last(), ..raw->0 },
    );
    if windows_paths::local_path(directory) is None {
        assert(plan[0] is Refuse);
    }
    let directories = seq![
        WindowsCheckView::FixedDisk(directory),
        WindowsCheckView::Directory(directory),
    ];
    nothing_refused_in_either(directories, member_plan(job, job_path, directory));
    let inputs = input_plan(job, job_path, directory);
    match job.progress {
        ProgressDestination::Stdout => {
            let refused = seq![refusal("privileged jobs require a session progress file"@)];
            nothing_refused_in_either(inputs, refused);
            assert(refused[0] is Refuse);
        },
        ProgressDestination::File { path } => {
            let channels = channel_plan(job, path@, directory);
            let own = job_plan(job);
            let opening = progress_checks(directory, path@);
            nothing_refused_in_either(inputs, channels + own + opening);
            nothing_refused_in_either(channels + own, opening);
            nothing_refused_in_either(channels, own);
            if worker::text_fault(Platform::Windows, job) is Some {
                assert(own[0] is Refuse);
            }
            let file = file_checks(directory, path@, "worker-progress.jsonl"@, Some(0), true);
            let cancel = text::optional_text(job.cancel_path);
            let skip = text::optional_text(job.skip_verification_path);
            let first = marker_checks(directory, cancel, "cancel"@);
            let second = marker_checks(directory, skip, "skip-verification"@);
            nothing_refused_in_either(file + first, second);
            nothing_refused_in_either(file, first);
            unrefused_file_is_a_member(directory, path@, "worker-progress.jsonl"@, Some(0), true);
            unrefused_marker_is_a_member(directory, cancel, "cancel"@);
            unrefused_marker_is_a_member(directory, skip, "skip-verification"@);
        },
    }
    let job_file = file_checks(directory, job_path, "worker-job.json"@, None, false);
    let raw_file = file_checks(
        directory,
        job.raw_path@,
        "snapdog-os.img"@,
        Some(job.raw_size),
        false,
    );
    nothing_refused_in_either(job_file, raw_file);
    unrefused_file_is_a_member(directory, job_path, "worker-job.json"@, None, false);
    unrefused_file_is_a_member(
        directory,
        job.raw_path@,
        "snapdog-os.img"@,
        Some(job.raw_size),
        false,
    );
}

proof fn accepted_checks_refuse_nothing(
    start: WindowsPreflightState,
    events: Seq<WindowsSessionEvent>,
)
    requires
        start.settled == 0,
        preflight_accepts(start, events),
        !preflight_after(start, events).refused,
    ensures
        forall|i: int|
            0 <= i < due_after(start.plan, events) && i < start.plan.len() ==> !(
            #[trigger] start.plan[i] is Refuse),
    decreases events.len(),
{
    if events.len() > 0 {
        accepted_checks_refuse_nothing(start, events.drop_last());
        passed_in_order(start, events.drop_last());
    }
}

/// A job starts only where the command line is the pinned one, the job says nothing that it must
/// not, and every file that it names is the fixed-name member of one session directory.
pub proof fn started_windows_job_names_only_its_session(
    job: WorkerJob,
    arguments: Seq<String>,
    events: Seq<WindowsSessionEvent>,
    event: WindowsSessionEvent,
)
    requires
        preflight_accepts(preflight_start(job, arguments).0, events.push(event)),
        preflight_after(preflight_start(job, arguments).0, events).step(event).1 is Start,
    ensures
        worker::arguments_fault(Platform::Windows, arguments) is None,
        worker::text_fault(Platform::Windows, job) is None,
        names_only_session_members(job, arguments[2]@),
{
    let start = preflight_start(job, arguments).0;
    let all = events.push(event);
    assert(all.drop_last() =~= events);
    assert(preflight_after(start, all) == preflight_after(start, events).step(event).0);
    passed_before(start, events);
    passed_in_order(start, all);
    accepted_checks_refuse_nothing(start, all);
    let plan = preflight_plan(job, arguments);
    assert(refuses_nothing(plan));
    if worker::arguments_fault(Platform::Windows, arguments) is Some {
        assert(plan[0] is Refuse);
    }
    unrefused_job_names_members(job, arguments[2]@);
}

/// An entry passes exactly where it is no reparse point and of the wanted type, and has the size
/// that is wanted of it.
pub proof fn plain_entries_pass(
    facts: WindowsFileFacts,
    size: Option<u64>,
    empty: bool,
    name: Seq<char>,
)
    ensures
        entry_reason(facts, true, None, false, name) is None <==> facts.attributes & 0x400 == 0
            && facts.is_dir,
        entry_reason(facts, false, size, empty, name) is None <==> facts.attributes & 0x400 == 0
            && facts.is_file && (empty ==> facts.length == 0) && (size is Some ==> facts.length
            == size->0),
        entry_reason(facts, false, size, empty, name) matches Some(fault) ==> fault is InvalidJob,
{
}

/// Each check of a session passes exactly where what it is about is as it must be: the disk is a
/// fixed one, the directory a plain one that was pinned and that is still the pinned one, a file a
/// plain one of the wanted size, a marker such an empty file or absent, and the opened progress file
/// the empty file that its path names.
pub proof fn session_checks_say_what_passes(
    job: WorkerJob,
    check: WindowsCheckView,
    event: WindowsSessionEvent,
)
    requires
        check.expects(event),
    ensures
        session_fault(job, check, event) is None <==> match event {
            WindowsSessionEvent::Drive(fixed) => fixed,
            WindowsSessionEvent::Pinned(look, pinned) => look matches Ok(facts) && facts.attributes
                & 0x400 == 0 && facts.is_dir && pinned is Ok,
            WindowsSessionEvent::Compared(look, same) => look matches Ok(facts)
                && facts.attributes & 0x400 == 0 && facts.is_dir && same == Ok::<bool, String>(
                true,
            ),
            WindowsSessionEvent::Opened(opened) => opened matches Ok((facts, same))
                && facts.attributes & 0x400 == 0 && facts.is_file && facts.length == 0 && same
                == Ok::<bool, String>(true),
            WindowsSessionEvent::Truncated(result) => result is Ok,
            WindowsSessionEvent::Looked(look) => match check {
                WindowsCheckView::File { size, empty, .. } => look matches Ok(facts)
                    && facts.attributes & 0x400 == 0 && facts.is_file && (empty ==> facts.length
                    == 0) && (size is Some ==> facts.length == size->0),
                WindowsCheckView::Marker { .. } => match look {
                    Ok(facts) => facts.attributes & 0x400 == 0 && facts.is_file && facts.length
                        == 0,
                    Err(failure) => failure is NotFound,
                },
                _ => look matches Ok(facts) && facts.is_file && !facts.is_symlink && facts.length
                    == job.raw_size,
            },
        },
{
}

/// A check that is passed leads to the next one that is due, and the last one to the start of the
/// job; a check that fails ends the session with its own fault. A marker that is not there makes the
/// comparison behind it needless, and nothing else is left out.
pub proof fn passed_windows_check_leads_to_the_next(
    state: WindowsPreflightState,
    event: WindowsSessionEvent,
)
    requires
        state.expects(event),
    ensures
        ({
            let due = state.settled as int;
            let fault = session_fault(state.job, state.plan[due], event);
            let (after, action) = state.step(event);
            let absent = state.plan[due] is Marker && event->Looked_0 is Err;
            let next: int = if absent && due + 1 < state.plan.len() && state.plan[due
                + 1] is SameAfterMarker {
                due + 2
            } else {
                due + 1
            };
            &&& fault matches Some(error) ==> action == WindowsPreflightActionView::Fail(error)
                && after.refused
            &&& fault is None && next >= state.plan.len() ==> action is Start
            &&& fault is None && next < state.plan.len() ==> {
                &&& after.settled == next
                &&& after.plan == state.plan
                &&& match state.plan[next] {
                    WindowsCheckView::Refuse(error) => action == WindowsPreflightActionView::Fail(
                        error,
                    ),
                    WindowsCheckView::FixedDisk(path) => action
                        == WindowsPreflightActionView::CheckDrive(path),
                    WindowsCheckView::Directory(path) => action == WindowsPreflightActionView::Pin(
                        path,
                    ),
                    WindowsCheckView::SameDirectory(path)
                    | WindowsCheckView::SameAfterMarker(path) => action
                        == WindowsPreflightActionView::Compare(path),
                    WindowsCheckView::OpenProgress(path) => action
                        == WindowsPreflightActionView::OpenProgress(path),
                    WindowsCheckView::TruncateProgress => action is TruncateProgress,
                    WindowsCheckView::RawImage(path) => action == WindowsPreflightActionView::Look(
                        path,
                    ),
                    WindowsCheckView::File { path, .. } => action
                        == WindowsPreflightActionView::Look(path),
                    WindowsCheckView::Marker { path, .. } => action
                        == WindowsPreflightActionView::Look(path),
                }
            }
        }),
{
}

proof fn concatenated_checks_hold_both(
    first: Seq<WindowsCheckView>,
    second: Seq<WindowsCheckView>,
    check: WindowsCheckView,
)
    requires
        first.contains(check) || second.contains(check),
    ensures
        (first + second).contains(check),
{
    if first.contains(check) {
        let at = choose|i: int| 0 <= i < first.len() && first[i] == check;
        assert((first + second)[at] == check);
    } else {
        let at = choose|i: int| 0 <= i < second.len() && second[i] == check;
        assert((first + second)[first.len() + at] == check);
    }
}

/// Before a job is started that is refused for nothing it says, the disk and the session directory
/// are looked at, and so is every file that the job names, each with the size that it must have; the
/// progress file is opened and emptied last.
pub proof fn every_windows_file_is_examined(job: WorkerJob, arguments: Seq<String>)
    requires
        refuses_nothing(preflight_plan(job, arguments)),
    ensures
        job.progress is File,
        ({
            let plan = preflight_plan(job, arguments);
            let raw = windows_paths::drive_path(job.raw_path@)->0;
            let directory = windows_paths::local_text(
                windows_paths::LocalPath { parts: raw.parts.drop_last(), ..raw },
            );
            let progress = job.progress->path@;
            &&& plan.len() > 2
            &&& plan[0] == WindowsCheckView::FixedDisk(directory)
            &&& plan[1] == WindowsCheckView::Directory(directory)
            &&& plan.contains(
                WindowsCheckView::File {
                    path: arguments[2]@,
                    name: "worker-job.json"@,
                    size: None,
                    empty: false,
                },
            )
            &&& plan.contains(
                WindowsCheckView::File {
                    path: job.raw_path@,
                    name: "snapdog-os.img"@,
                    size: Some(job.raw_size),
                    empty: false,
                },
            )
            &&& plan.contains(
                WindowsCheckView::File {
                    path: progress,
                    name: "worker-progress.jsonl"@,
                    size: Some(0),
                    empty: true,
                },
            )
            &&& plan.contains(
                WindowsCheckView::Marker { path: job.cancel_path->0@, name: "cancel"@ },
            )
            &&& plan.contains(
                WindowsCheckView::Marker {
                    path: job.skip_verification_path->0@,
                    name: "skip-verification"@,
                },
            )
            &&& plan.contains(WindowsCheckView::RawImage(job.raw_path@))
            &&& plan.contains(WindowsCheckView::OpenProgress(progress))
            &&& plan.last() == WindowsCheckView::TruncateProgress
        }),
{
    let plan = preflight_plan(job, arguments);
    if worker::arguments_fault(Platform::Windows, arguments) is Some {
        assert(plan[0] is Refuse);
    }
    let job_path = arguments[2]@;
    unrefused_job_names_members(job, job_path);
    let raw = windows_paths::drive_path(job.raw_path@)->0;
    let directory = windows_paths::local_text(
        windows_paths::LocalPath { parts: raw.parts.drop_last(), ..raw },
    );
    if windows_paths::local_path(directory) is None {
        assert(plan[0] is Refuse);
    }
    let front = seq![
        WindowsCheckView::FixedDisk(directory),
        WindowsCheckView::Directory(directory),
    ];
    let members = member_plan(job, job_path, directory);
    assert(plan == front + members);
    let inputs = input_plan(job, job_path, directory);
    let progress = job.progress->path@;
    let channels = channel_plan(job, progress, directory);
    let own = job_plan(job);
    let opening = progress_checks(directory, progress);
    assert(members == inputs + (channels + own + opening));
    let size = Some(job.raw_size);
    let first = file_checks(directory, job_path, "worker-job.json"@, None, false);
    let second = file_checks(directory, job.raw_path@, "snapdog-os.img"@, size, false);
    let third = file_checks(directory, progress, "worker-progress.jsonl"@, Some(0), true);
    let cancel = marker_checks(directory, text::optional_text(job.cancel_path), "cancel"@);
    let skip = marker_checks(
        directory,
        text::optional_text(job.skip_verification_path),
        "skip-verification"@,
    );
    assert forall|check: WindowsCheckView|
        first.contains(check) || second.contains(check) || third.contains(check)
            || cancel.contains(check) || skip.contains(check) || own.contains(check)
            || opening.contains(check) implies #[trigger] plan.contains(check) by {
        if first.contains(check) || second.contains(check) {
            concatenated_checks_hold_both(first, second, check);
        } else {
            if third.contains(check) || cancel.contains(check) || skip.contains(check) {
                if third.contains(check) || cancel.contains(check) {
                    concatenated_checks_hold_both(third, cancel, check);
                }
                concatenated_checks_hold_both(third + cancel, skip, check);
            }
            if channels.contains(check) || own.contains(check) {
                concatenated_checks_hold_both(channels, own, check);
            }
            concatenated_checks_hold_both(channels + own, opening, check);
        }
        concatenated_checks_hold_both(inputs, channels + own + opening, check);
        concatenated_checks_hold_both(front, members, check);
    }
    assert(first[1] == WindowsCheckView::File {
        path: job_path,
        name: "worker-job.json"@,
        size: None,
        empty: false,
    });
    assert(second[1] == WindowsCheckView::File {
        path: job.raw_path@,
        name: "snapdog-os.img"@,
        size,
        empty: false,
    });
    assert(third[1] == WindowsCheckView::File {
        path: progress,
        name: "worker-progress.jsonl"@,
        size: Some(0),
        empty: true,
    });
    assert(cancel[1] == WindowsCheckView::Marker { path: job.cancel_path->0@, name: "cancel"@ });
    assert(skip[1] == WindowsCheckView::Marker {
        path: job.skip_verification_path->0@,
        name: "skip-verification"@,
    });
    assert(own[0] == WindowsCheckView::RawImage(job.raw_path@));
    assert(opening[3] == WindowsCheckView::OpenProgress(progress));
    assert(opening.last() == WindowsCheckView::TruncateProgress);
    assert(plan.last() == opening.last());
}

} // verus!
