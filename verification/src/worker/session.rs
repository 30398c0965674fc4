//! The private session that a privileged worker accepts on Unix, and everything it checks before
//! it starts: the session directory and its parent, every file that the job names, the job itself
//! and the progress file that it opens.
//!
//! What is to be checked follows from the texts of the job alone, so it is laid out as a list
//! first. The worker then looks at one path after the other and judges what it finds.

use vstd::prelude::*;
use vstd::string::*;

use crate::paths;
use crate::paths::{is_clean_absolute_path, is_member_path, parent_path};
use crate::text;
use crate::text::{decimal_text, join2, join3};
use crate::worker;
use crate::worker::{
    current_worker_job_path, invalid_session, invalid_session2, validate_job_text, Platform,
    ProgressDestination, WorkerError, WorkerErrorView, WorkerJob,
};

verus! {

broadcast use vstd::seq_lib::group_seq_properties;

/// What a look at a path, without following a final symbolic link, shows of it.
#[derive(Clone, Copy, Debug, PartialEq, Eq)]
pub struct FileFacts {
    pub is_symlink: bool,
    pub is_dir: bool,
    pub is_file: bool,
    pub is_socket: bool,
    pub uid: u32,
    pub mode: u32,
    pub device: u64,
    pub inode: u64,
    pub links: u64,
    pub length: u64,
}

/// Why a path could not be looked at. Both hold the cause.
#[derive(Debug)]
pub enum LookFailure {
    /// Nothing is there.
    NotFound(String),
    Failed(String),
}

impl LookFailure {
    /// The cause.
    pub open spec fn text(self) -> Seq<char> {
        match self {
            LookFailure::NotFound(cause) => cause@,
            LookFailure::Failed(cause) => cause@,
        }
    }

    /// The cause.
    pub fn cause(&self) -> (result: &str)
        ensures
            result@ == self.text(),
    {
        match self {
            LookFailure::NotFound(cause) => cause.as_str(),
            LookFailure::Failed(cause) => cause.as_str(),
        }
    }
}

/// A number in octal digits.
pub open spec fn octal(n: nat) -> Seq<char>
    decreases n,
{
    if n < 8 {
        seq![text::digit_char(n)]
    } else {
        octal(n / 8).push(text::digit_char(n % 8))
    }
}

fn octal_text(n: u32) -> (result: String)
    ensures
        result@ == octal(n as nat),
    decreases n,
{
    let mut result = if n < 8 {
        String::new()
    } else {
        octal_text(n / 8)
    };
    let digit: char = ((n % 8) as u8 + 48) as char;
    result.push(digit);
    assert(Seq::<char>::empty().push(digit) =~= seq![digit]);
    result
}

/// One thing to check.
#[derive(Debug)]
pub enum SessionCheck {
    /// The job is refused for what it says.
    Refuse(WorkerError),
    /// The session directory.
    Directory(String),
    /// The directory that holds the session directory.
    Parent(String),
    /// The session directory is still the same.
    SameDirectory(String),
    /// The directory that holds the session directory is still the same.
    SameParent(String),
    /// A file of the session.
    File { path: String, name: &'static str, size: Option<u64>, empty: bool },
    /// A marker that may not be there yet.
    Marker { path: String, name: &'static str },
    /// The socket over which the authorized target comes.
    Socket(String),
    /// The raw image, as the job describes it.
    RawImage(String),
    /// The progress file is to be opened for writing, without truncating it.
    OpenProgress(String),
    /// The opened progress file is to be truncated.
    TruncateProgress(String),
}

/// What a [`SessionCheck`] holds.
pub enum SessionCheckView {
    Refuse(WorkerErrorView),
    Directory(Seq<char>),
    Parent(Seq<char>),
    SameDirectory(Seq<char>),
    SameParent(Seq<char>),
    File { path: Seq<char>, name: Seq<char>, size: Option<u64>, empty: bool },
    Marker { path: Seq<char>, name: Seq<char> },
    Socket(Seq<char>),
    RawImage(Seq<char>),
    OpenProgress(Seq<char>),
    TruncateProgress(Seq<char>),
}

impl View for SessionCheck {
    type V = SessionCheckView;

    open spec fn view(&self) -> SessionCheckView {
        match *self {
            SessionCheck::Refuse(error) => SessionCheckView::Refuse(error@),
            SessionCheck::Directory(path) => SessionCheckView::Directory(path@),
            SessionCheck::Parent(path) => SessionCheckView::Parent(path@),
            SessionCheck::SameDirectory(path) => SessionCheckView::SameDirectory(path@),
            SessionCheck::SameParent(path) => SessionCheckView::SameParent(path@),
            SessionCheck::File { path, name, size, empty } => SessionCheckView::File {
                path: path@,
                name: name@,
                size,
                empty,
            },
            SessionCheck::Marker { path, name } => SessionCheckView::Marker {
                path: path@,
                name: name@,
            },
            SessionCheck::Socket(path) => SessionCheckView::Socket(path@),
            SessionCheck::RawImage(path) => SessionCheckView::RawImage(path@),
            SessionCheck::OpenProgress(path) => SessionCheckView::OpenProgress(path@),
            SessionCheck::TruncateProgress(path) => SessionCheckView::TruncateProgress(path@),
        }
    }
}

/// The views of some checks.
pub open spec fn check_views(checks: Seq<SessionCheck>) -> Seq<SessionCheckView> {
    checks.map_values(|check: SessionCheck| check@)
}

// ---------------------------------------------------------------------------------------------
// What is to be checked
// ---------------------------------------------------------------------------------------------

/// A refusal for a reason.
pub open spec fn refusal(reason: Seq<char>) -> SessionCheckView {
    SessionCheckView::Refuse(WorkerErrorView::InvalidJob(reason))
}

/// Whether a path is the direct member of the session directory with this name.
pub open spec fn is_session_member(directory: Seq<char>, path: Seq<char>, name: Seq<char>) -> bool {
    paths::path_view(path).is_clean_absolute() && paths::is_member(
        paths::path_view(path),
        paths::path_view(directory),
        name,
    )
}

/// A check of a member of the session directory, or the refusal of a path that is none.
pub open spec fn member_checks(
    directory: Seq<char>,
    path: Seq<char>,
    name: Seq<char>,
    checks: Seq<SessionCheckView>,
) -> Seq<SessionCheckView> {
    if is_session_member(directory, path, name) {
        checks
    } else {
        seq![
            refusal(name + " must be a direct member of the private session directory"@),
        ]
    }
}

/// The session directory and its parent are still the same.
pub open spec fn unchanged_checks(directory: Seq<char>, parent: Seq<char>) -> Seq<
    SessionCheckView,
> {
    seq![SessionCheckView::SameDirectory(directory), SessionCheckView::SameParent(parent)]
}

/// A file of the session, with the session directory the same before and after.
pub open spec fn file_checks(
    directory: Seq<char>,
    parent: Seq<char>,
    path: Seq<char>,
    name: Seq<char>,
    size: Option<u64>,
    empty: bool,
) -> Seq<SessionCheckView> {
    member_checks(
        directory,
        path,
        name,
        unchanged_checks(directory, parent).push(
            SessionCheckView::File { path, name, size, empty },
        ) + unchanged_checks(directory, parent),
    )
}

/// A marker of the session.
pub open spec fn marker_checks(
    directory: Seq<char>,
    path: Option<Seq<char>>,
    name: Seq<char>,
) -> Seq<SessionCheckView> {
    match path {
        None => seq![refusal("session marker "@ + name + " is missing from the job"@)],
        Some(path) => member_checks(
            directory,
            path,
            name,
            seq![SessionCheckView::Marker { path, name }],
        ),
    }
}

/// The socket of the session, where the job names one and the platform uses it.
pub open spec fn socket_checks(
    platform: Platform,
    directory: Seq<char>,
    parent: Seq<char>,
    path: Option<Seq<char>>,
) -> Seq<SessionCheckView> {
    match path {
        Some(path) => if platform == Platform::MacOs {
            member_checks(
                directory,
                path,
                "authorized-target.sock"@,
                unchanged_checks(directory, parent).push(SessionCheckView::Socket(path))
                    + unchanged_checks(directory, parent),
            )
        } else {
            Seq::empty()
        },
        None => Seq::empty(),
    }
}

/// The progress file is opened only after it has been checked once more, and truncated only after
/// the opened file has been found to be the checked one.
pub open spec fn progress_checks(directory: Seq<char>, parent: Seq<char>, path: Seq<char>) -> Seq<
    SessionCheckView,
> {
    file_checks(directory, parent, path, "worker-progress.jsonl"@, Some(0), true).push(
        SessionCheckView::OpenProgress(path),
    ) + unchanged_checks(directory, parent).push(SessionCheckView::TruncateProgress(path))
}

/// The checks of the job file and of the raw image.
pub open spec fn input_plan(
    job: WorkerJob,
    job_path: Seq<char>,
    directory: Seq<char>,
    parent: Seq<char>,
) -> Seq<SessionCheckView> {
    file_checks(directory, parent, job_path, "worker-job.json"@, None, false) + file_checks(
        directory,
        parent,
        job.raw_path@,
        "snapdog-os.img"@,
        Some(job.raw_size),
        false,
    )
}

/// The checks of the files over which a worker and its client talk.
pub open spec fn channel_plan(
    platform: Platform,
    job: WorkerJob,
    progress: Seq<char>,
    directory: Seq<char>,
    parent: Seq<char>,
) -> Seq<SessionCheckView> {
    file_checks(directory, parent, progress, "worker-progress.jsonl"@, Some(0), true)
        + marker_checks(directory, text::optional_text(job.cancel_path), "cancel"@) + marker_checks(
        directory,
        text::optional_text(job.skip_verification_path),
        "skip-verification"@,
    ) + socket_checks(platform, directory, parent, text::optional_text(job.macos_target_socket))
}

/// The check of the job itself.
pub open spec fn job_plan(platform: Platform, job: WorkerJob) -> Seq<SessionCheckView> {
    match worker::text_fault(platform, job) {
        Some(fault) => seq![SessionCheckView::Refuse(fault)],
        None => seq![SessionCheckView::RawImage(job.raw_path@)],
    }
}

/// The checks of the session behind its two directories.
pub open spec fn member_plan(
    platform: Platform,
    job: WorkerJob,
    job_path: Seq<char>,
    directory: Seq<char>,
    parent: Seq<char>,
) -> Seq<SessionCheckView> {
    input_plan(job, job_path, directory, parent) + match job.progress {
        ProgressDestination::Stdout => {
            seq![refusal("privileged jobs require a session progress file"@)]
        },
        ProgressDestination::File { path } => channel_plan(
            platform,
            job,
            path@,
            directory,
            parent,
        ) + job_plan(platform, job) + progress_checks(directory, parent, path@),
    }
}

/// The checks of the session that the job file at `job_path` lies in.
pub open spec fn session_plan(platform: Platform, job: WorkerJob, job_path: Seq<char>) -> Seq<
    SessionCheckView,
> {
    match paths::path_view(job.raw_path@).parent() {
        None => seq![refusal("raw image has no parent directory"@)],
        Some(view) => {
            let directory = paths::path_text(view);
            if !paths::path_view(directory).is_clean_absolute() {
                seq![refusal("session directory path is not canonical"@)]
            } else {
                match paths::path_view(directory).parent() {
                    None => seq![
                        SessionCheckView::Directory(directory),
                        refusal("session directory has no private parent"@),
                    ],
                    Some(above) => {
                        let parent = paths::path_text(above);
                        seq![
                            SessionCheckView::Directory(directory),
                            SessionCheckView::Parent(parent),
                        ] + member_plan(platform, job, job_path, directory, parent)
                    },
                }
            }
        },
    }
}

/// Everything that is checked before a job starts. On macOS the job has to name the socket over
/// which the authorized target comes.
pub open spec fn preflight_plan(platform: Platform, job: WorkerJob, arguments: Seq<String>) -> Seq<
    SessionCheckView,
> {
    if platform == Platform::MacOs && job.macos_target_socket is None {
        seq![refusal("macOS raw-device writing requires an authorized target socket"@)]
    } else {
        match worker::arguments_fault(platform, arguments) {
            Some(fault) => seq![SessionCheckView::Refuse(fault)],
            None => session_plan(platform, job, arguments[2]@),
        }
    }
}

fn refuse(checks: &mut Vec<SessionCheck>, error: WorkerError)
    ensures
        check_views(final(checks)@) == check_views(old(checks)@).push(
            SessionCheckView::Refuse(error@),
        ),
{
    add_check(checks, SessionCheck::Refuse(error));
}

fn add_check(checks: &mut Vec<SessionCheck>, check: SessionCheck)
    ensures
        check_views(final(checks)@) == check_views(old(checks)@).push(check@),
{
    let ghost before = check_views(checks@);
    checks.push(check);
    assert(check_views(checks@) =~= before.push(check@));
}

/// Lays out the checks of one session.
struct Planner {
    directory: String,
    parent: String,
    checks: Vec<SessionCheck>,
}

impl Planner {
    spec fn same_place(self, other: Planner) -> bool {
        self.directory == other.directory && self.parent == other.parent
    }

    spec fn planned(self) -> Seq<SessionCheckView> {
        check_views(self.checks@)
    }

    fn unchanged(&mut self)
        ensures
            final(self).same_place(*old(self)),
            final(self).planned() == old(self).planned() + unchanged_checks(
                old(self).directory@,
                old(self).parent@,
            ),
    {
        let ghost before = self.planned();
        add_check(&mut self.checks, SessionCheck::SameDirectory(self.directory.clone()));
        add_check(&mut self.checks, SessionCheck::SameParent(self.parent.clone()));
        assert(self.planned() =~= before + unchanged_checks(self.directory@, self.parent@));
    }

    /// Whether a path is a member of the session; the refusal is planned where it is none.
    fn member(&mut self, path: &str, name: &str) -> (is_member: bool)
        ensures
            is_member == is_session_member(old(self).directory@, path@, name@),
            final(self).same_place(*old(self)),
            forall|checks: Seq<SessionCheckView>|
                is_member ==> final(self).planned() + checks == old(self).planned()
                    + #[trigger] member_checks(old(self).directory@, path@, name@, checks),
            forall|checks: Seq<SessionCheckView>|
                !is_member ==> final(self).planned() == old(self).planned()
                    + #[trigger] member_checks(old(self).directory@, path@, name@, checks),
    {
        if is_clean_absolute_path(path) && is_member_path(path, self.directory.as_str(), name) {
            return true;
        }
        let ghost before = self.planned();
        refuse(
            &mut self.checks,
            invalid_session2(name, " must be a direct member of the private session directory"),
        );
        assert forall|checks: Seq<SessionCheckView>| self.planned() == before
            + #[trigger] member_checks(self.directory@, path@, name@, checks) by {
            assert(self.planned() =~= before + member_checks(
                self.directory@,
                path@,
                name@,
                checks,
            ));
        }
        false
    }

    fn file(&mut self, path: &str, name: &'static str, size: Option<u64>, empty: bool)
        ensures
            final(self).same_place(*old(self)),
            final(self).planned() == old(self).planned() + file_checks(
                old(self).directory@,
                old(self).parent@,
                path@,
                name@,
                size,
                empty,
            ),
    {
        let ghost before = self.planned();
        let ghost wanted = unchanged_checks(self.directory@, self.parent@).push(
            SessionCheckView::File { path: path@, name: name@, size, empty },
        ) + unchanged_checks(self.directory@, self.parent@);
        let is_member = self.member(path, name);
        assert(member_checks(self.directory@, path@, name@, wanted) == file_checks(
            self.directory@,
            self.parent@,
            path@,
            name@,
            size,
            empty,
        ));
        if is_member {
            self.unchanged();
            let path = path.to_owned();
            add_check(&mut self.checks, SessionCheck::File { path, name, size, empty });
            self.unchanged();
            assert(self.planned() =~= before + wanted);
        }
    }

    fn marker(&mut self, path: &Option<String>, name: &'static str)
        ensures
            final(self).same_place(*old(self)),
            final(self).planned() == old(self).planned() + marker_checks(
                old(self).directory@,
                text::optional_text(*path),
                name@,
            ),
    {
        let ghost before = self.planned();
        match path {
            None => {
                let start = join2("session marker ", name);
                refuse(
                    &mut self.checks,
                    invalid_session2(start.as_str(), " is missing from the job"),
                );
            },
            Some(path) => {
                let ghost wanted = seq![
                    SessionCheckView::Marker { path: path@, name: name@ },
                ];
                let is_member = self.member(path.as_str(), name);
                assert(member_checks(self.directory@, path@, name@, wanted) == marker_checks(
                    self.directory@,
                    Some(path@),
                    name@,
                ));
                if is_member {
                    add_check(
                        &mut self.checks,
                        SessionCheck::Marker { path: path.clone(), name },
                    );
                    assert(self.planned() =~= before + wanted);
                }
            },
        }
        assert(self.planned() =~= before + marker_checks(
            self.directory@,
            text::optional_text(*path),
            name@,
        ));
    }

    fn socket(&mut self, platform: Platform, path: &Option<String>)
        ensures
            final(self).same_place(*old(self)),
            final(self).planned() == old(self).planned() + socket_checks(
                platform,
                old(self).directory@,
                old(self).parent@,
                text::optional_text(*path),
            ),
    {
        let ghost before = self.planned();
        match path {
            Some(path) => {
                if platform == Platform::MacOs {
                    let ghost wanted = unchanged_checks(self.directory@, self.parent@).push(
                        SessionCheckView::Socket(path@),
                    ) + unchanged_checks(self.directory@, self.parent@);
                    let is_member = self.member(path.as_str(), "authorized-target.sock");
                    assert(member_checks(
                        self.directory@,
                        path@,
                        "authorized-target.sock"@,
                        wanted,
                    ) == socket_checks(platform, self.directory@, self.parent@, Some(path@)));
                    if is_member {
                        self.unchanged();
                        add_check(&mut self.checks, SessionCheck::Socket(path.clone()));
                        self.unchanged();
                        assert(self.planned() =~= before + wanted);
                    }
                } else {
                    assert(before + Seq::<SessionCheckView>::empty() =~= before);
                }
            },
            None => {
                assert(before + Seq::<SessionCheckView>::empty() =~= before);
            },
        }
    }

    fn progress(&mut self, path: &str)
        ensures
            final(self).same_place(*old(self)),
            final(self).planned() == old(self).planned() + progress_checks(
                old(self).directory@,
                old(self).parent@,
                path@,
            ),
    {
        let ghost before = self.planned();
        self.file(path, "worker-progress.jsonl", Some(0), true);
        add_check(&mut self.checks, SessionCheck::OpenProgress(path.to_owned()));
        self.unchanged();
        add_check(&mut self.checks, SessionCheck::TruncateProgress(path.to_owned()));
        assert(self.planned() =~= before + progress_checks(
            self.directory@,
            self.parent@,
            path@,
        ));
    }

    fn inputs(&mut self, job: &WorkerJob, job_path: &str)
        ensures
            final(self).same_place(*old(self)),
            final(self).planned() == old(self).planned() + input_plan(
                *job,
                job_path@,
                old(self).directory@,
                old(self).parent@,
            ),
    {
        self.file(job_path, "worker-job.json", None, false);
        self.file(job.raw_path.as_str(), "snapdog-os.img", Some(job.raw_size), false);
        proof {
            appended_in_order();
        }
    }

    fn channels(&mut self, platform: Platform, job: &WorkerJob, progress: &str)
        ensures
            final(self).same_place(*old(self)),
            final(self).planned() == old(self).planned() + channel_plan(
                platform,
                *job,
                progress@,
                old(self).directory@,
                old(self).parent@,
            ),
    {
        self.file(progress, "worker-progress.jsonl", Some(0), true);
        self.marker(&job.cancel_path, "cancel");
        self.marker(&job.skip_verification_path, "skip-verification");
        self.socket(platform, &job.macos_target_socket);
        proof {
            appended_in_order();
        }
    }

    fn job(&mut self, platform: Platform, job: &WorkerJob)
        ensures
            final(self).same_place(*old(self)),
            final(self).planned() == old(self).planned() + job_plan(platform, *job),
    {
        let ghost before = self.planned();
        match validate_job_text(platform, job) {
            Err(error) => refuse(&mut self.checks, error),
            Ok(()) => add_check(&mut self.checks, SessionCheck::RawImage(job.raw_path.clone())),
        }
        assert(self.planned() =~= before + job_plan(platform, *job));
    }

    fn members(&mut self, platform: Platform, job: &WorkerJob, job_path: &str)
        ensures
            final(self).planned() == old(self).planned() + member_plan(
                platform,
                *job,
                job_path@,
                old(self).directory@,
                old(self).parent@,
            ),
    {
        let ghost before = self.planned();
        self.inputs(job, job_path);
        let ghost inputs = input_plan(*job, job_path@, self.directory@, self.parent@);
        match &job.progress {
            ProgressDestination::Stdout => {
                let reason = "privileged jobs require a session progress file";
                refuse(&mut self.checks, invalid_session(reason));
                assert(self.planned() =~= before + (inputs + seq![refusal(reason@)]));
            },
            ProgressDestination::File { path } => {
                self.channels(platform, job, path.as_str());
                self.job(platform, job);
                self.progress(path.as_str());
                proof {
                    appended_in_order();
                }
            },
        }
    }
}

proof fn appended_in_order()
    ensures
        forall|a: Seq<SessionCheckView>, b: Seq<SessionCheckView>, c: Seq<SessionCheckView>|
            #[trigger] ((a + b) + c) == a + (b + c),
{
    assert forall|a: Seq<SessionCheckView>, b: Seq<SessionCheckView>, c: Seq<SessionCheckView>|
        #[trigger] ((a + b) + c) == a + (b + c) by {
        assert((a + b) + c =~= a + (b + c));
    }
}

fn plan_session(platform: Platform, job: &WorkerJob, job_path: &str) -> (checks: Vec<SessionCheck>)
    ensures
        check_views(checks@) == session_plan(platform, *job, job_path@),
{
    let mut checks: Vec<SessionCheck> = Vec::new();
    assert(check_views(checks@) =~= Seq::<SessionCheckView>::empty());
    let directory = match parent_path(job.raw_path.as_str()) {
        Some(directory) => directory,
        None => {
            refuse(&mut checks, invalid_session("raw image has no parent directory"));
            assert(check_views(checks@) =~= session_plan(platform, *job, job_path@));
            return checks;
        },
    };
    if !is_clean_absolute_path(directory.as_str()) {
        refuse(&mut checks, invalid_session("session directory path is not canonical"));
        assert(check_views(checks@) =~= session_plan(platform, *job, job_path@));
        return checks;
    }
    add_check(&mut checks, SessionCheck::Directory(directory.clone()));
    let parent = match parent_path(directory.as_str()) {
        Some(parent) => parent,
        None => {
            refuse(&mut checks, invalid_session("session directory has no private parent"));
            assert(check_views(checks@) =~= session_plan(platform, *job, job_path@));
            return checks;
        },
    };
    add_check(&mut checks, SessionCheck::Parent(parent.clone()));
    let mut planner = Planner { directory, parent, checks };
    planner.members(platform, job, job_path);
    assert(check_views(planner.checks@) =~= session_plan(platform, *job, job_path@));
    planner.checks
}

fn plan_preflight(platform: Platform, job: &WorkerJob, arguments: &Vec<String>) -> (checks: Vec<
    SessionCheck,
>)
    ensures
        check_views(checks@) == preflight_plan(platform, *job, arguments@),
{
    let mut checks: Vec<SessionCheck> = Vec::new();
    assert(check_views(checks@) =~= Seq::<SessionCheckView>::empty());
    if platform == Platform::MacOs && job.macos_target_socket.is_none() {
        refuse(
            &mut checks,
            invalid_session("macOS raw-device writing requires an authorized target socket"),
        );
        assert(check_views(checks@) =~= preflight_plan(platform, *job, arguments@));
        return checks;
    }
    match current_worker_job_path(platform, arguments) {
        Err(error) => {
            refuse(&mut checks, error);
            assert(check_views(checks@) =~= preflight_plan(platform, *job, arguments@));
            checks
        },
        Ok(job_path) => plan_session(platform, job, job_path.as_str()),
    }
}

// ---------------------------------------------------------------------------------------------
// What is found
// ---------------------------------------------------------------------------------------------

/// The identity of a session directory and of its parent, as they were when they were first seen.
#[derive(Clone, Copy, Debug, PartialEq, Eq)]
pub struct PrivilegedSession {
    pub owner_uid: u32,
    pub directory_device: u64,
    pub directory_inode: u64,
    pub parent_owner_uid: u32,
    pub parent_mode: u32,
    pub parent_device: u64,
    pub parent_inode: u64,
}

/// What was found.
#[derive(Debug)]
pub enum SessionEvent {
    /// A look at the path.
    Looked(Result<FileFacts, LookFailure>),
    /// The path was looked at, the file opened, and the opened file looked at; or the first of
    /// these that failed.
    Opened(Result<(FileFacts, FileFacts), String>),
    /// The opened file was truncated.
    Truncated(Result<(), String>),
}

/// Whether facts are those of a real directory with exactly these permissions.
pub open spec fn is_directory_with_mode(facts: FileFacts, mode: u32) -> bool {
    !facts.is_symlink && facts.is_dir && facts.mode & 0o7777 == mode
}

/// Whether a directory may hold a session directory of this owner: it is private to the owner or,
/// on Linux, a sticky temporary directory of root.
pub open spec fn is_session_parent(platform: Platform, facts: FileFacts, owner_uid: u32) -> bool {
    ||| is_directory_with_mode(facts, 0o700) && facts.uid == owner_uid
    ||| platform == Platform::Linux && is_directory_with_mode(facts, 0o1777) && facts.uid == 0
}

/// Whether a file of the session is a plain file of the session's owner, with one name, that
/// nobody else can write.
pub open spec fn is_session_file(
    facts: FileFacts,
    owner_uid: u32,
    size: Option<u64>,
    empty: bool,
) -> bool {
    &&& !facts.is_symlink
    &&& facts.is_file
    &&& facts.uid == owner_uid
    &&& facts.links == 1
    &&& facts.mode & 0o022 == 0
    &&& size matches Some(wanted) ==> facts.length == wanted
    &&& empty ==> facts.length == 0
}

/// The identity of a session that has this directory.
pub open spec fn with_directory(session: PrivilegedSession, facts: FileFacts) ->
    PrivilegedSession {
    PrivilegedSession {
        owner_uid: facts.uid,
        directory_device: facts.device,
        directory_inode: facts.inode,
        ..session
    }
}

/// The identity of a session whose directory lies in this one.
pub open spec fn with_parent(session: PrivilegedSession, facts: FileFacts) -> PrivilegedSession {
    PrivilegedSession {
        parent_owner_uid: facts.uid,
        parent_mode: facts.mode,
        parent_device: facts.device,
        parent_inode: facts.inode,
        ..session
    }
}

/// Why a path that was looked at is refused.
pub open spec fn look_fault(
    platform: Platform,
    job: WorkerJob,
    check: SessionCheckView,
    session: PrivilegedSession,
    look: Result<FileFacts, LookFailure>,
) -> Option<WorkerErrorView> {
    match check {
        SessionCheckView::RawImage(_) => worker::raw_image_fault(
            job,
            match look {
                Ok(facts) => Ok(
                    worker::RawImageFacts {
                        is_symlink: facts.is_symlink,
                        is_file: facts.is_file,
                        length: facts.length,
                    },
                ),
                Err(LookFailure::NotFound(cause)) => Err(cause),
                Err(LookFailure::Failed(cause)) => Err(cause),
            },
        ),
        _ => match look_reason(platform, check, session, look) {
            Some(reason) => Some(WorkerErrorView::InvalidJob(reason)),
            None => None,
        },
    }
}

/// The reason for which a path of the session is refused.
pub open spec fn look_reason(
    platform: Platform,
    check: SessionCheckView,
    session: PrivilegedSession,
    look: Result<FileFacts, LookFailure>,
) -> Option<Seq<char>> {
    match look {
        Err(failure) => match check {
            SessionCheckView::Directory(_) => Some(
                "session directory is unavailable: "@ + failure.text(),
            ),
            SessionCheckView::Parent(_) => Some(
                "session parent directory is unavailable: "@ + failure.text(),
            ),
            SessionCheckView::SameDirectory(_) => Some(
                "session directory changed: "@ + failure.text(),
            ),
            SessionCheckView::SameParent(_) => Some("session parent changed: "@ + failure.text()),
            SessionCheckView::File { name, .. } => Some(
                name + " is unavailable: "@ + failure.text(),
            ),
            SessionCheckView::Marker { name, .. } => if failure is NotFound {
                None
            } else {
                Some("session marker "@ + name + " is unavailable: "@ + failure.text())
            },
            _ => Some("authorized target socket is unavailable: "@ + failure.text()),
        },
        Ok(facts) => match check {
            SessionCheckView::Directory(_) => if is_directory_with_mode(facts, 0o700) && facts.uid
                != 0 {
                None
            } else {
                Some(
                    "session directory must be private and non-root-owned (uid "@ + text::decimal(
                        facts.uid as nat,
                    ) + ", mode "@ + octal((facts.mode & 0o777) as nat) + ")"@,
                )
            },
            SessionCheckView::Parent(_) => if is_session_parent(
                platform,
                facts,
                session.owner_uid,
            ) {
                None
            } else {
                Some(
                    "session directory must live inside an approved private or sticky temporary directory"@,
                )
            },
            SessionCheckView::SameDirectory(_) => if is_directory_with_mode(facts, 0o700)
                && with_directory(session, facts) == session {
                None
            } else {
                Some("session directory changed during authorization"@)
            },
            SessionCheckView::SameParent(_) => if !facts.is_symlink && facts.is_dir && with_parent(
                session,
                facts,
            ) == session {
                None
            } else {
                Some("session parent directory changed during authorization"@)
            },
            SessionCheckView::File { name, size, empty, .. } => file_reason(
                facts,
                session,
                name,
                size,
                empty,
            ),
            SessionCheckView::Marker { name, .. } => file_reason(
                facts,
                session,
                name,
                Some(0),
                true,
            ),
            _ => if facts.is_socket && facts.uid == session.owner_uid && facts.links == 1
                && facts.mode & 0o077 == 0 {
                None
            } else {
                Some(
                    "authorized target socket has unsafe ownership, permissions, links, or type"@,
                )
            },
        },
    }
}

/// The reason for which a file of the session is refused.
pub open spec fn file_reason(
    facts: FileFacts,
    session: PrivilegedSession,
    name: Seq<char>,
    size: Option<u64>,
    empty: bool,
) -> Option<Seq<char>> {
    if is_session_file(facts, session.owner_uid, size, empty) {
        None
    } else {
        Some(name + " has unsafe ownership, permissions, links, type, or size"@)
    }
}

/// Why what was found is refused.
pub open spec fn session_fault(
    platform: Platform,
    job: WorkerJob,
    check: SessionCheckView,
    session: PrivilegedSession,
    event: SessionEvent,
) -> Option<WorkerErrorView> {
    match event {
        SessionEvent::Looked(look) => look_fault(platform, job, check, session, look),
        SessionEvent::Opened(Err(cause)) => Some(WorkerErrorView::Progress(cause@)),
        SessionEvent::Opened(Ok((path, opened))) => match file_reason(
            opened,
            session,
            "worker-progress.jsonl"@,
            Some(0),
            true,
        ) {
            Some(reason) => Some(WorkerErrorView::InvalidJob(reason)),
            None => if path.device != opened.device || path.inode != opened.inode {
                Some(WorkerErrorView::InvalidJob("progress path changed while it was opened"@))
            } else {
                None
            },
        },
        SessionEvent::Truncated(Err(cause)) => Some(WorkerErrorView::Progress(cause@)),
        SessionEvent::Truncated(Ok(_)) => None,
    }
}

/// The identity of the session after a check that was passed.
pub open spec fn session_after(
    check: SessionCheckView,
    session: PrivilegedSession,
    event: SessionEvent,
) -> PrivilegedSession {
    match (check, event) {
        (SessionCheckView::Directory(_), SessionEvent::Looked(Ok(facts))) => with_directory(
            session,
            facts,
        ),
        (SessionCheckView::Parent(_), SessionEvent::Looked(Ok(facts))) => with_parent(
            session,
            facts,
        ),
        _ => session,
    }
}

fn is_directory(facts: &FileFacts, mode: u32) -> (result: bool)
    ensures
        result == is_directory_with_mode(*facts, mode),
{
    !facts.is_symlink && facts.is_dir && facts.mode & 0o7777 == mode
}

/// Whether a directory may hold a session directory of this owner.
pub fn valid_session_parent(platform: Platform, facts: &FileFacts, owner_uid: u32) -> (result: bool)
    ensures
        result == is_session_parent(platform, *facts, owner_uid),
{
    (is_directory(facts, 0o700) && facts.uid == owner_uid) || (platform == Platform::Linux
        && is_directory(facts, 0o1777) && facts.uid == 0)
}

impl PrivilegedSession {
    fn unknown() -> (session: PrivilegedSession)
        ensures
            session == unknown_session(),
    {
        PrivilegedSession {
            owner_uid: 0,
            directory_device: 0,
            directory_inode: 0,
            parent_owner_uid: 0,
            parent_mode: 0,
            parent_device: 0,
            parent_inode: 0,
        }
    }

    /// Check a file of the session.
    pub fn validate_file_metadata(
        &self,
        facts: &FileFacts,
        name: &str,
        size: Option<u64>,
        empty: bool,
    ) -> (result: Result<(), WorkerError>)
        ensures
            worker::is_verdict(
                result,
                match file_reason(*facts, *self, name@, size, empty) {
                    Some(reason) => Some(WorkerErrorView::InvalidJob(reason)),
                    None => None,
                },
            ),
    {
        let right_size = match size {
            Some(wanted) => facts.length == wanted,
            None => true,
        };
        if facts.is_symlink || !facts.is_file || facts.uid != self.owner_uid || facts.links != 1
            || facts.mode & 0o022 != 0 || !right_size || (empty && facts.length != 0) {
            return Err(
                invalid_session2(name, " has unsafe ownership, permissions, links, type, or size"),
            );
        }
        Ok(())
    }

    fn judge_failure(check: &SessionCheck, failure: &LookFailure) -> (result: Result<
        (),
        WorkerError,
    >)
        requires
            !(check is RawImage),
        ensures
            forall|platform: Platform, session: PrivilegedSession|
                worker::is_verdict(
                    result,
                    match #[trigger] look_reason(platform, check@, session, Err(*failure)) {
                        Some(reason) => Some(WorkerErrorView::InvalidJob(reason)),
                        None => None,
                    },
                ),
    {
        let cause = failure.cause();
        match check {
            SessionCheck::Directory(_) => Err(
                invalid_session2("session directory is unavailable: ", cause),
            ),
            SessionCheck::Parent(_) => Err(
                invalid_session2("session parent directory is unavailable: ", cause),
            ),
            SessionCheck::SameDirectory(_) => Err(
                invalid_session2("session directory changed: ", cause),
            ),
            SessionCheck::SameParent(_) => Err(invalid_session2("session parent changed: ", cause)),
            SessionCheck::File { name, .. } => {
                let start = join2(name, " is unavailable: ");
                Err(invalid_session2(start.as_str(), cause))
            },
            SessionCheck::Marker { name, .. } => match failure {
                LookFailure::NotFound(_) => Ok(()),
                LookFailure::Failed(_) => {
                    let start = join3("session marker ", name, " is unavailable: ");
                    Err(invalid_session2(start.as_str(), cause))
                },
            },
            _ => Err(invalid_session2("authorized target socket is unavailable: ", cause)),
        }
    }

    fn judge_facts(&self, platform: Platform, check: &SessionCheck, facts: &FileFacts) -> (result:
        Result<(), WorkerError>)
        requires
            !(check is RawImage),
        ensures
            worker::is_verdict(
                result,
                match look_reason(platform, check@, *self, Ok(*facts)) {
                    Some(reason) => Some(WorkerErrorView::InvalidJob(reason)),
                    None => None,
                },
            ),
    {
        match check {
            SessionCheck::Directory(_) => {
                if !is_directory(facts, 0o700) || facts.uid == 0 {
                    let uid = decimal_text(facts.uid as u64);
                    let mode = octal_text(facts.mode & 0o777);
                    let start = join3(
                        "session directory must be private and non-root-owned (uid ",
                        uid.as_str(),
                        ", mode ",
                    );
                    let reason = join3(start.as_str(), mode.as_str(), ")");
                    return Err(invalid_session(reason.as_str()));
                }
                Ok(())
            },
            SessionCheck::Parent(_) => {
                if !valid_session_parent(platform, facts, self.owner_uid) {
                    return Err(
                        invalid_session(
                            "session directory must live inside an approved private or sticky temporary directory",
                        ),
                    );
                }
                Ok(())
            },
            SessionCheck::SameDirectory(_) => {
                if !is_directory(facts, 0o700) || facts.uid != self.owner_uid || facts.device
                    != self.directory_device || facts.inode != self.directory_inode {
                    return Err(invalid_session("session directory changed during authorization"));
                }
                Ok(())
            },
            SessionCheck::SameParent(_) => {
                if facts.is_symlink || !facts.is_dir || facts.uid != self.parent_owner_uid
                    || facts.mode != self.parent_mode || facts.device != self.parent_device
                    || facts.inode != self.parent_inode {
                    return Err(
                        invalid_session("session parent directory changed during authorization"),
                    );
                }
                Ok(())
            },
            SessionCheck::File { name, size, empty, .. } => self.validate_file_metadata(
                facts,
                name,
                *size,
                *empty,
            ),
            SessionCheck::Marker { name, .. } => self.validate_file_metadata(
                facts,
                name,
                Some(0),
                true,
            ),
            _ => {
                if !facts.is_socket || facts.uid != self.owner_uid || facts.links != 1 || facts.mode
                    & 0o077 != 0 {
                    return Err(
                        invalid_session(
                            "authorized target socket has unsafe ownership, permissions, links, or type",
                        ),
                    );
                }
                Ok(())
            },
        }
    }
}

/// A session of which nothing has been seen.
pub open spec fn unknown_session() -> PrivilegedSession {
    PrivilegedSession {
        owner_uid: 0,
        directory_device: 0,
        directory_inode: 0,
        parent_owner_uid: 0,
        parent_mode: 0,
        parent_device: 0,
        parent_inode: 0,
    }
}

fn judge_raw_image(job: &WorkerJob, look: &Result<FileFacts, LookFailure>) -> (result: Result<
    (),
    WorkerError,
>)
    ensures
        forall|platform: Platform, path: Seq<char>, session: PrivilegedSession|
            worker::is_verdict(
                result,
                #[trigger] look_fault(
                    platform,
                    *job,
                    SessionCheckView::RawImage(path),
                    session,
                    *look,
                ),
            ),
{
    match look {
        Ok(facts) => {
            if facts.is_symlink || !facts.is_file {
                return Err(invalid_session("raw image path must be a non-symlink regular file"));
            }
            if facts.length != job.raw_size {
                return Err(invalid_session("raw image size changed after preparation"));
            }
            Ok(())
        },
        Err(failure) => Err(invalid_session2("raw image is not readable: ", failure.cause())),
    }
}

// ---------------------------------------------------------------------------------------------
// One check after the other
// ---------------------------------------------------------------------------------------------

/// What to do next.
#[derive(Debug)]
pub enum PreflightAction {
    /// Look at the path without following a final symbolic link.
    Look(String),
    /// Look at the path, open the file for writing, and look at the opened file.
    OpenProgress(String),
    /// Truncate the opened progress file.
    TruncateProgress,
    /// Everything has been checked: start the job.
    Start,
    /// Report the error.
    Fail(WorkerError),
}

/// What a [`PreflightAction`] holds.
pub enum PreflightActionView {
    Look(Seq<char>),
    OpenProgress(Seq<char>),
    TruncateProgress,
    Start,
    Fail(WorkerErrorView),
}

impl View for PreflightAction {
    type V = PreflightActionView;

    open spec fn view(&self) -> PreflightActionView {
        match *self {
            PreflightAction::Look(path) => PreflightActionView::Look(path@),
            PreflightAction::OpenProgress(path) => PreflightActionView::OpenProgress(path@),
            PreflightAction::TruncateProgress => PreflightActionView::TruncateProgress,
            PreflightAction::Start => PreflightActionView::Start,
            PreflightAction::Fail(error) => PreflightActionView::Fail(error@),
        }
    }
}

impl SessionCheckView {
    /// What a check asks for.
    pub open spec fn action(self) -> PreflightActionView {
        match self {
            SessionCheckView::Refuse(fault) => PreflightActionView::Fail(fault),
            SessionCheckView::Directory(path) => PreflightActionView::Look(path),
            SessionCheckView::Parent(path) => PreflightActionView::Look(path),
            SessionCheckView::SameDirectory(path) => PreflightActionView::Look(path),
            SessionCheckView::SameParent(path) => PreflightActionView::Look(path),
            SessionCheckView::File { path, .. } => PreflightActionView::Look(path),
            SessionCheckView::Marker { path, .. } => PreflightActionView::Look(path),
            SessionCheckView::Socket(path) => PreflightActionView::Look(path),
            SessionCheckView::RawImage(path) => PreflightActionView::Look(path),
            SessionCheckView::OpenProgress(path) => PreflightActionView::OpenProgress(path),
            SessionCheckView::TruncateProgress(_) => PreflightActionView::TruncateProgress,
        }
    }

    /// Whether an event answers what the check asks for.
    pub open spec fn expects(self, event: SessionEvent) -> bool {
        match self {
            SessionCheckView::Refuse(_) => false,
            SessionCheckView::OpenProgress(_) => event is Opened,
            SessionCheckView::TruncateProgress(_) => event is Truncated,
            _ => event is Looked,
        }
    }
}

/// The state of the checks before a job.
pub struct PreflightState {
    pub platform: Platform,
    pub job: WorkerJob,
    pub plan: Seq<SessionCheckView>,
    /// How many checks have been passed.
    pub passed: nat,
    pub session: PrivilegedSession,
    /// Whether a check was not passed.
    pub refused: bool,
}

impl PreflightState {
    /// Whether the event answers the check that is due.
    pub open spec fn expects(self, event: SessionEvent) -> bool {
        !self.refused && self.passed < self.plan.len() && self.plan[self.passed as int].expects(
            event,
        )
    }

    /// The check that is due, or the start where none is left.
    pub open spec fn next(self) -> (PreflightState, PreflightActionView) {
        if self.passed >= self.plan.len() {
            (self, PreflightActionView::Start)
        } else if self.plan[self.passed as int] is Refuse {
            (
                PreflightState { refused: true, ..self },
                self.plan[self.passed as int].action(),
            )
        } else {
            (self, self.plan[self.passed as int].action())
        }
    }

    /// What follows on an event.
    pub open spec fn step(self, event: SessionEvent) -> (PreflightState, PreflightActionView) {
        let check = self.plan[self.passed as int];
        match session_fault(self.platform, self.job, check, self.session, event) {
            Some(fault) => (
                PreflightState { refused: true, ..self },
                PreflightActionView::Fail(fault),
            ),
            None => PreflightState {
                passed: self.passed + 1,
                session: session_after(check, self.session, event),
                ..self
            }.next(),
        }
    }
}

/// How the checks before a job begin.
pub open spec fn preflight_start(platform: Platform, job: WorkerJob, arguments: Seq<String>) -> (
    PreflightState,
    PreflightActionView,
) {
    PreflightState {
        platform,
        job,
        plan: preflight_plan(platform, job, arguments),
        passed: 0,
        session: unknown_session(),
        refused: false,
    }.next()
}

/// The checks that a privileged Unix worker makes before it starts a job.
pub struct Preflight<'a> {
    platform: Platform,
    job: &'a WorkerJob,
    plan: Vec<SessionCheck>,
    passed: usize,
    session: PrivilegedSession,
    refused: bool,
}

impl<'a> View for Preflight<'a> {
    type V = PreflightState;

    closed spec fn view(&self) -> PreflightState {
        PreflightState {
            platform: self.platform,
            job: *self.job,
            plan: check_views(self.plan@),
            passed: self.passed as nat,
            session: self.session,
            refused: self.refused,
        }
    }
}

impl<'a> Preflight<'a> {
    /// Begin the checks of a job that a worker process with these arguments was given.
    pub fn start(platform: Platform, job: &'a WorkerJob, arguments: &Vec<String>) -> (result: (
        Preflight<'a>,
        PreflightAction,
    ))
        ensures
            (result.0@, result.1@) == preflight_start(platform, *job, arguments@),
    {
        let mut preflight = Preflight {
            platform,
            job,
            plan: plan_preflight(platform, job, arguments),
            passed: 0,
            session: PrivilegedSession::unknown(),
            refused: false,
        };
        let action = preflight.next();
        (preflight, action)
    }

    fn next(&mut self) -> (action: PreflightAction)
        ensures
            (final(self)@, action@) == old(self)@.next(),
    {
        if self.passed >= self.plan.len() {
            return PreflightAction::Start;
        }
        assert(self@.plan[self.passed as int] == self.plan@[self.passed as int]@);
        match &self.plan[self.passed] {
            SessionCheck::Refuse(error) => {
                let error = error.copy();
                self.refused = true;
                PreflightAction::Fail(error)
            },
            SessionCheck::Directory(path) => PreflightAction::Look(path.clone()),
            SessionCheck::Parent(path) => PreflightAction::Look(path.clone()),
            SessionCheck::SameDirectory(path) => PreflightAction::Look(path.clone()),
            SessionCheck::SameParent(path) => PreflightAction::Look(path.clone()),
            SessionCheck::File { path, .. } => PreflightAction::Look(path.clone()),
            SessionCheck::Marker { path, .. } => PreflightAction::Look(path.clone()),
            SessionCheck::Socket(path) => PreflightAction::Look(path.clone()),
            SessionCheck::RawImage(path) => PreflightAction::Look(path.clone()),
            SessionCheck::OpenProgress(path) => PreflightAction::OpenProgress(path.clone()),
            SessionCheck::TruncateProgress(_) => PreflightAction::TruncateProgress,
        }
    }

    fn judge(&self, event: &SessionEvent) -> (result: Result<(), WorkerError>)
        requires
            self@.expects(*event),
        ensures
            worker::is_verdict(
                result,
                session_fault(
                    self@.platform,
                    self@.job,
                    self@.plan[self@.passed as int],
                    self@.session,
                    *event,
                ),
            ),
    {
        assert(self@.plan[self.passed as int] == self.plan@[self.passed as int]@);
        let check = &self.plan[self.passed];
        match event {
            SessionEvent::Looked(look) => match check {
                SessionCheck::RawImage(_) => judge_raw_image(self.job, look),
                _ => match look {
                    Ok(facts) => self.session.judge_facts(self.platform, check, facts),
                    Err(failure) => PrivilegedSession::judge_failure(check, failure),
                },
            },
            SessionEvent::Opened(Err(cause)) => Err(WorkerError::Progress(cause.clone())),
            SessionEvent::Opened(Ok((path, opened))) => {
                match self.session.validate_file_metadata(
                    opened,
                    "worker-progress.jsonl",
                    Some(0),
                    true,
                ) {
                    Err(error) => Err(error),
                    Ok(()) => {
                        if path.device != opened.device || path.inode != opened.inode {
                            Err(invalid_session("progress path changed while it was opened"))
                        } else {
                            Ok(())
                        }
                    },
                }
            },
            SessionEvent::Truncated(Err(cause)) => Err(WorkerError::Progress(cause.clone())),
            SessionEvent::Truncated(Ok(())) => Ok(()),
        }
    }

    fn remember(&mut self, event: &SessionEvent)
        requires
            old(self)@.expects(*event),
        ensures
            final(self)@ == (PreflightState {
                session: session_after(
                    old(self)@.plan[old(self)@.passed as int],
                    old(self)@.session,
                    *event,
                ),
                ..old(self)@
            }),
    {
        assert(self@.plan[self.passed as int] == self.plan@[self.passed as int]@);
        match event {
            SessionEvent::Looked(Ok(facts)) => match &self.plan[self.passed] {
                SessionCheck::Directory(_) => {
                    self.session.owner_uid = facts.uid;
                    self.session.directory_device = facts.device;
                    self.session.directory_inode = facts.inode;
                },
                SessionCheck::Parent(_) => {
                    self.session.parent_owner_uid = facts.uid;
                    self.session.parent_mode = facts.mode;
                    self.session.parent_device = facts.device;
                    self.session.parent_inode = facts.inode;
                },
                _ => {},
            },
            _ => {},
        }
    }

    /// What to do next after a check was made.
    pub fn step(&mut self, event: &SessionEvent) -> (action: PreflightAction)
        requires
            old(self)@.expects(*event),
        ensures
            (final(self)@, action@) == old(self)@.step(*event),
    {
        match self.judge(event) {
            Err(error) => {
                self.refused = true;
                PreflightAction::Fail(error)
            },
            Ok(()) => {
                self.remember(event);
                let count: usize = self.plan.len();
                assert(self.passed < count);
                self.passed = self.passed + 1;
                self.next()
            },
        }
    }
}

// ---------------------------------------------------------------------------------------------
// What holds of a session that was accepted
// ---------------------------------------------------------------------------------------------

/// The state after a run of events.
pub open spec fn preflight_after(start: PreflightState, events: Seq<SessionEvent>) -> PreflightState
    decreases events.len(),
{
    if events.len() == 0 {
        start
    } else {
        preflight_after(start, events.drop_last()).step(events.last()).0
    }
}

/// Whether every event of the run answers the check that was due.
pub open spec fn preflight_accepts(start: PreflightState, events: Seq<SessionEvent>) -> bool
    decreases events.len(),
{
    events.len() == 0 || (preflight_accepts(start, events.drop_last()) && preflight_after(
        start,
        events.drop_last(),
    ).expects(events.last()))
}

/// The identity of the session after the first events of a run that was never refused.
pub open spec fn session_known(plan: Seq<SessionCheckView>, events: Seq<SessionEvent>) ->
    PrivilegedSession
    decreases events.len(),
{
    if events.len() == 0 {
        unknown_session()
    } else {
        session_after(
            plan[events.len() - 1],
            session_known(plan, events.drop_last()),
            events.last(),
        )
    }
}

/// Whether the checks begin in this state, whatever is to be checked.
pub open spec fn nothing_checked(start: PreflightState) -> bool {
    start.passed == 0 && start.session == unknown_session()
}

proof fn passed_in_order(start: PreflightState, events: Seq<SessionEvent>)
    requires
        nothing_checked(start),
        preflight_accepts(start, events),
        !preflight_after(start, events).refused,
    ensures
        preflight_after(start, events) == (PreflightState {
            passed: events.len(),
            session: session_known(start.plan, events),
            ..start
        }),
        forall|i: int| #![trigger start.plan[i], events[i]]
            0 <= i < events.len() ==> session_fault(
                start.platform,
                start.job,
                start.plan[i],
                session_known(start.plan, events.take(i)),
                events[i],
            ) is None,
    decreases events.len(),
{
    if events.len() > 0 {
        let head = events.drop_last();
        passed_in_order(start, head);
        assert forall|i: int| #![trigger start.plan[i], events[i]] 0 <= i
            < events.len() implies session_fault(
            start.platform,
            start.job,
            start.plan[i],
            session_known(start.plan, events.take(i)),
            events[i],
        ) is None by {
            if i < head.len() {
                assert(head[i] == events[i]);
                assert(head.take(i) =~= events.take(i));
            } else {
                assert(events.take(i) =~= head);
            }
        }
    }
}

proof fn start_follows_the_last_check(state: PreflightState, event: SessionEvent)
    requires
        state.expects(event),
        state.step(event).1 is Start,
    ensures
        !state.step(event).0.refused,
        state.passed + 1 == state.plan.len(),
{
}

/// A job starts only after every check of its plan was passed, in the plan's order: none was left
/// out, and each was judged against the identity of the session as it was first seen.
pub proof fn started_job_passed_every_check(
    start: PreflightState,
    events: Seq<SessionEvent>,
    event: SessionEvent,
)
    requires
        nothing_checked(start),
        preflight_accepts(start, events.push(event)),
    ensures
        preflight_after(start, events).step(event).1 is Start ==> {
            let all = events.push(event);
            &&& all.len() == start.plan.len()
            &&& forall|i: int| #![trigger start.plan[i], all[i]]
                0 <= i < start.plan.len() ==> session_fault(
                    start.platform,
                    start.job,
                    start.plan[i],
                    session_known(start.plan, all.take(i)),
                    all[i],
                ) is None
        },
{
    let all = events.push(event);
    assert(all.drop_last() =~= events);
    let before = preflight_after(start, events);
    if before.step(event).1 is Start {
        start_follows_the_last_check(before, event);
        passed_in_order(start, events);
        assert(preflight_after(start, all) == before.step(event).0);
        passed_in_order(start, all);
    }
}

/// Whether none of some checks refuses the job for what it says.
pub open spec fn refuses_nothing(plan: Seq<SessionCheckView>) -> bool {
    forall|i: int| 0 <= i < plan.len() ==> !(#[trigger] plan[i] is Refuse)
}

/// Whether every file that a job names, and the job file itself, is the member of one directory
/// with the name that the file has in every session.
pub open spec fn names_only_session_members(
    platform: Platform,
    job: WorkerJob,
    job_path: Seq<char>,
) -> bool {
    match paths::path_view(job.raw_path@).parent() {
        None => false,
        Some(view) => {
            let directory = paths::path_text(view);
            &&& is_session_member(directory, job_path, "worker-job.json"@)
            &&& is_session_member(directory, job.raw_path@, "snapdog-os.img"@)
            &&& job.progress matches ProgressDestination::File { path } && is_session_member(
                directory,
                path@,
                "worker-progress.jsonl"@,
            )
            &&& job.cancel_path matches Some(path) && is_session_member(
                directory,
                path@,
                "cancel"@,
            )
            &&& job.skip_verification_path matches Some(path) && is_session_member(
                directory,
                path@,
                "skip-verification"@,
            )
            &&& platform == Platform::MacOs ==> (job.macos_target_socket matches Some(path)
                && is_session_member(directory, path@, "authorized-target.sock"@))
        },
    }
}

proof fn nothing_refused_in_either(first: Seq<SessionCheckView>, second: Seq<SessionCheckView>)
    requires
        refuses_nothing(first + second),
    ensures
        refuses_nothing(first),
        refuses_nothing(second),
{
    assert forall|i: int| 0 <= i < first.len() implies !(#[trigger] first[i] is Refuse) by {
        assert((first + second)[i] == first[i]);
    }
    assert forall|i: int| 0 <= i < second.len() implies !(#[trigger] second[i] is Refuse) by {
        assert((first + second)[first.len() + i] == second[i]);
    }
}

proof fn unrefused_path_is_a_member(
    directory: Seq<char>,
    path: Seq<char>,
    name: Seq<char>,
    checks: Seq<SessionCheckView>,
)
    requires
        refuses_nothing(member_checks(directory, path, name, checks)),
    ensures
        is_session_member(directory, path, name),
{
    if !is_session_member(directory, path, name) {
        assert(member_checks(directory, path, name, checks)[0] is Refuse);
    }
}

proof fn unrefused_marker_is_a_member(directory: Seq<char>, path: Option<Seq<char>>, name: Seq<char>)
    requires
        refuses_nothing(marker_checks(directory, path, name)),
    ensures
        path matches Some(marker) && is_session_member(directory, marker, name),
{
    match path {
        None => {
            assert(marker_checks(directory, path, name)[0] is Refuse);
        },
        Some(marker) => {
            unrefused_path_is_a_member(
                directory,
                marker,
                name,
                seq![SessionCheckView::Marker { path: marker, name }],
            );
        },
    }
}

proof fn unrefused_file_is_a_member(
    directory: Seq<char>,
    parent: Seq<char>,
    path: Seq<char>,
    name: Seq<char>,
    size: Option<u64>,
    empty: bool,
)
    requires
        refuses_nothing(file_checks(directory, parent, path, name, size, empty)),
    ensures
        is_session_member(directory, path, name),
{
    if !is_session_member(directory, path, name) {
        assert(file_checks(directory, parent, path, name, size, empty)[0] is Refuse);
    }
}

proof fn unrefused_channels_are_members(
    platform: Platform,
    job: WorkerJob,
    progress: Seq<char>,
    directory: Seq<char>,
    parent: Seq<char>,
)
    requires
        refuses_nothing(channel_plan(platform, job, progress, directory, parent)),
    ensures
        is_session_member(directory, progress, "worker-progress.jsonl"@),
        text::optional_text(job.cancel_path) matches Some(path) && is_session_member(
            directory,
            path,
            "cancel"@,
        ),
        text::optional_text(job.skip_verification_path) matches Some(path) && is_session_member(
            directory,
            path,
            "skip-verification"@,
        ),
        platform == Platform::MacOs ==> (text::optional_text(job.macos_target_socket) matches Some(
            path,
        ) ==> is_session_member(directory, path, "authorized-target.sock"@)),
{
    let file = file_checks(directory, parent, progress, "worker-progress.jsonl"@, Some(0), true);
    let cancel = text::optional_text(job.cancel_path);
    let skip = text::optional_text(job.skip_verification_path);
    let socket = text::optional_text(job.macos_target_socket);
    let first = marker_checks(directory, cancel, "cancel"@);
    let second = marker_checks(directory, skip, "skip-verification"@);
    let third = socket_checks(platform, directory, parent, socket);
    nothing_refused_in_either(file + first + second, third);
    nothing_refused_in_either(file + first, second);
    nothing_refused_in_either(file, first);
    unrefused_file_is_a_member(
        directory,
        parent,
        progress,
        "worker-progress.jsonl"@,
        Some(0),
        true,
    );
    unrefused_marker_is_a_member(directory, cancel, "cancel"@);
    unrefused_marker_is_a_member(directory, skip, "skip-verification"@);
    if platform == Platform::MacOs && socket is Some {
        unrefused_path_is_a_member(
            directory,
            socket->0,
            "authorized-target.sock"@,
            unchanged_checks(directory, parent).push(SessionCheckView::Socket(socket->0))
                + unchanged_checks(directory, parent),
        );
    }
}

proof fn unrefused_job_names_members(platform: Platform, job: WorkerJob, job_path: Seq<char>)
    requires
        platform == Platform::MacOs ==> job.macos_target_socket is Some,
        refuses_nothing(session_plan(platform, job, job_path)),
    ensures
        names_only_session_members(platform, job, job_path),
        worker::text_fault(platform, job) is None,
{
    let plan = session_plan(platform, job, job_path);
    let view = paths::path_view(job.raw_path@).parent();
    if view is None {
        assert(plan[0] is Refuse);
    }
    let directory = paths::path_text(view->0);
    if !paths::path_view(directory).is_clean_absolute() {
        assert(plan[0] is Refuse);
    }
    let above = paths::path_view(directory).parent();
    if above is None {
        assert(plan[1] is Refuse);
    }
    let parent = paths::path_text(above->0);
    let directories = seq![
        SessionCheckView::Directory(directory),
        SessionCheckView::Parent(parent),
    ];
    let members = member_plan(platform, job, job_path, directory, parent);
    nothing_refused_in_either(directories, members);
    let inputs = input_plan(job, job_path, directory, parent);
    match job.progress {
        ProgressDestination::Stdout => {
            let refused = seq![refusal("privileged jobs require a session progress file"@)];
            nothing_refused_in_either(inputs, refused);
            assert(refused[0] is Refuse);
        },
        ProgressDestination::File { path } => {
            let channels = channel_plan(platform, job, path@, directory, parent);
            let own = job_plan(platform, job);
            let opening = progress_checks(directory, parent, path@);
            nothing_refused_in_either(inputs, channels + own + opening);
            nothing_refused_in_either(channels + own, opening);
            nothing_refused_in_either(channels, own);
            unrefused_channels_are_members(platform, job, path@, directory, parent);
            if worker::text_fault(platform, job) is Some {
                assert(own[0] is Refuse);
            }
        },
    }
    let job_file = file_checks(directory, parent, job_path, "worker-job.json"@, None, false);
    let raw_file = file_checks(
        directory,
        parent,
        job.raw_path@,
        "snapdog-os.img"@,
        Some(job.raw_size),
        false,
    );
    nothing_refused_in_either(job_file, raw_file);
    unrefused_file_is_a_member(directory, parent, job_path, "worker-job.json"@, None, false);
    unrefused_file_is_a_member(
        directory,
        parent,
        job.raw_path@,
        "snapdog-os.img"@,
        Some(job.raw_size),
        false,
    );
}

proof fn accepted_checks_refuse_nothing(start: PreflightState, events: Seq<SessionEvent>)
    requires
        nothing_checked(start),
        preflight_accepts(start, events),
        !preflight_after(start, events).refused,
    ensures
        forall|i: int| 0 <= i < events.len() ==> !(#[trigger] start.plan[i] is Refuse),
    decreases events.len(),
{
    if events.len() > 0 {
        accepted_checks_refuse_nothing(start, events.drop_last());
        passed_in_order(start, events.drop_last());
    }
}

/// A job starts only where the command line is the pinned one, the job says nothing that it must
/// not, and every file that it names is the fixed-name member of one session directory.
pub proof fn started_job_names_only_its_session(
    platform: Platform,
    job: WorkerJob,
    arguments: Seq<String>,
    events: Seq<SessionEvent>,
    event: SessionEvent,
)
    requires
        preflight_accepts(preflight_start(platform, job, arguments).0, events.push(event)),
        preflight_after(preflight_start(platform, job, arguments).0, events).step(event).1 is Start,
    ensures
        worker::arguments_fault(platform, arguments) is None,
        worker::text_fault(platform, job) is None,
        names_only_session_members(platform, job, arguments[2]@),
{
    let start = preflight_start(platform, job, arguments).0;
    let all = events.push(event);
    assert(all.drop_last() =~= events);
    let before = preflight_after(start, events);
    start_follows_the_last_check(before, event);
    assert(preflight_after(start, all) == before.step(event).0);
    passed_in_order(start, events);
    accepted_checks_refuse_nothing(start, all);
    let plan = preflight_plan(platform, job, arguments);
    assert(refuses_nothing(plan));
    if platform == Platform::MacOs && job.macos_target_socket is None {
        assert(plan[0] is Refuse);
    }
    if worker::arguments_fault(platform, arguments) is Some {
        assert(plan[0] is Refuse);
    }
    unrefused_job_names_members(platform, job, arguments[2]@);
}

/// The session directory passes exactly where it is a real directory that is open to its owner
/// alone, and the owner is not root; and the parent exactly where it is such a directory of the same
/// owner, or on Linux root's sticky directory for everyone.
pub proof fn session_directory_is_private(
    platform: Platform,
    job: WorkerJob,
    session: PrivilegedSession,
    path: Seq<char>,
    look: Result<FileFacts, LookFailure>,
)
    ensures
        look_fault(platform, job, SessionCheckView::Directory(path), session, look) is None <==> (
        look matches Ok(facts) && !facts.is_symlink && facts.is_dir && facts.mode & 0o7777 == 0o700
            && facts.uid != 0),
        look_fault(platform, job, SessionCheckView::Parent(path), session, look) is None <==> (
        look matches Ok(facts) && !facts.is_symlink && facts.is_dir && ((facts.mode & 0o7777
            == 0o700 && facts.uid == session.owner_uid) || (platform is Linux && facts.mode & 0o7777
            == 0o1777 && facts.uid == 0))),
{
}

/// A directory that was exchanged since it was first seen is refused: it passes again exactly where
/// it is still a real directory with the same owner, device and inode, and for the parent with the
/// same mode.
pub proof fn exchanged_directory_is_refused(
    platform: Platform,
    job: WorkerJob,
    session: PrivilegedSession,
    path: Seq<char>,
    seen: FileFacts,
    again: FileFacts,
)
    ensures
        ({
            let known = session_after(
                SessionCheckView::Directory(path),
                session,
                SessionEvent::Looked(Ok(seen)),
            );
            look_fault(
                platform,
                job,
                SessionCheckView::SameDirectory(path),
                known,
                Ok(again),
            ) is None <==> !again.is_symlink && again.is_dir && again.mode & 0o7777 == 0o700
                && again.uid == seen.uid && again.device == seen.device && again.inode
                == seen.inode
        }),
        ({
            let known = session_after(
                SessionCheckView::Parent(path),
                session,
                SessionEvent::Looked(Ok(seen)),
            );
            &&& known.owner_uid == session.owner_uid
            &&& look_fault(
                platform,
                job,
                SessionCheckView::SameParent(path),
                known,
                Ok(again),
            ) is None <==> !again.is_symlink && again.is_dir && again.mode == seen.mode
                && again.uid == seen.uid && again.device == seen.device && again.inode
                == seen.inode
        }),
        forall|failure: LookFailure|
            #![trigger failure.text()]
            look_fault(
                platform,
                job,
                SessionCheckView::SameDirectory(path),
                session,
                Err(failure),
            ) is Some && look_fault(
                platform,
                job,
                SessionCheckView::SameParent(path),
                session,
                Err(failure),
            ) is Some,
{
}

/// A file of the session passes exactly where it is a plain file of the session's owner with a
/// single name, which nobody else may write, and with the size that is wanted; a marker may also be
/// absent; and the socket has to be the owner's alone.
pub proof fn session_files_are_the_owners(
    platform: Platform,
    job: WorkerJob,
    session: PrivilegedSession,
    path: Seq<char>,
    name: Seq<char>,
    size: Option<u64>,
    empty: bool,
    look: Result<FileFacts, LookFailure>,
)
    ensures
        look_fault(
            platform,
            job,
            SessionCheckView::File { path, name, size, empty },
            session,
            look,
        ) is None <==> (look matches Ok(facts) && !facts.is_symlink && facts.is_file && facts.uid
            == session.owner_uid && facts.links == 1 && facts.mode & 0o022 == 0 && (empty
            ==> facts.length == 0) && (size is Some ==> facts.length == size->0)),
        look_fault(
            platform,
            job,
            SessionCheckView::Marker { path, name },
            session,
            look,
        ) is None <==> match look {
            Ok(facts) => !facts.is_symlink && facts.is_file && facts.uid == session.owner_uid
                && facts.links == 1 && facts.mode & 0o022 == 0 && facts.length == 0,
            Err(failure) => failure is NotFound,
        },
        look_fault(platform, job, SessionCheckView::Socket(path), session, look) is None <==> (
        look matches Ok(facts) && facts.is_socket && facts.uid == session.owner_uid && facts.links
            == 1 && facts.mode & 0o077 == 0),
        look_fault(platform, job, SessionCheckView::RawImage(path), session, look) is None <==> (
        look matches Ok(facts) && facts.is_file && !facts.is_symlink && facts.length
            == job.raw_size),
{
}

/// The opened progress file passes exactly where it is an empty file of the session's owner and the
/// very file that its path names.
pub proof fn opened_progress_is_the_named_file(
    platform: Platform,
    job: WorkerJob,
    session: PrivilegedSession,
    path: Seq<char>,
    event: SessionEvent,
)
    requires
        SessionCheckView::OpenProgress(path).expects(event),
    ensures
        session_fault(platform, job, SessionCheckView::OpenProgress(path), session, event) is None
            <==> (event matches SessionEvent::Opened(Ok((named, opened))) && !opened.is_symlink
            && opened.is_file && opened.uid == session.owner_uid && opened.links == 1
            && opened.mode & 0o022 == 0 && opened.length == 0 && named.device == opened.device
            && named.inode == opened.inode),
{
}

/// A check that is passed leads to the next one, and the last one to the start of the job; a check
/// that fails ends the session with its own fault. What is looked at is what the check names.
pub proof fn passed_check_leads_to_the_next(state: PreflightState, event: SessionEvent)
    requires
        state.expects(event),
    ensures
        ({
            let check = state.plan[state.passed as int];
            let fault = session_fault(state.platform, state.job, check, state.session, event);
            let (after, action) = state.step(event);
            &&& fault matches Some(error) ==> action == PreflightActionView::Fail(error)
                && after.refused
            &&& fault is None && state.passed + 1 == state.plan.len() ==> action is Start
            &&& fault is None && state.passed + 1 < state.plan.len() ==> {
                &&& after.passed == state.passed + 1
                &&& after.plan == state.plan
                &&& match state.plan[state.passed + 1int] {
                    SessionCheckView::Refuse(error) => action == PreflightActionView::Fail(error),
                    SessionCheckView::OpenProgress(path) => action
                        == PreflightActionView::OpenProgress(path),
                    SessionCheckView::TruncateProgress(_) => action is TruncateProgress,
                    SessionCheckView::Directory(path)
                    | SessionCheckView::Parent(path)
                    | SessionCheckView::SameDirectory(path)
                    | SessionCheckView::SameParent(path)
                    | SessionCheckView::Socket(path)
                    | SessionCheckView::RawImage(path) => action == PreflightActionView::Look(path),
                    SessionCheckView::File { path, .. } => action == PreflightActionView::Look(
                        path,
                    ),
                    SessionCheckView::Marker { path, .. } => action == PreflightActionView::Look(
                        path,
                    ),
                }
            }
        }),
{
}

proof fn concatenated_checks_hold_both(
    first: Seq<SessionCheckView>,
    second: Seq<SessionCheckView>,
    check: SessionCheckView,
)
    requires
        first.contains(check) || second.contains(check),
    ensures
        (first + second).contains(check),
{
    if first.contains(check) {
        let at = choose|i: int| 0 <= i < first.len() && first[i] == check;
        assert((first + second)[at] == check);
    } else {
        let at = choose|i: int| 0 <= i < second.len() && second[i] == check;
        assert((first + second)[first.len() + at] == check);
    }
}

proof fn file_checks_hold_the_file(
    directory: Seq<char>,
    parent: Seq<char>,
    path: Seq<char>,
    name: Seq<char>,
    size: Option<u64>,
    empty: bool,
)
    requires
        is_session_member(directory, path, name),
    ensures
        file_checks(directory, parent, path, name, size, empty).contains(
            SessionCheckView::File { path, name, size, empty },
        ),
{
    let checks = file_checks(directory, parent, path, name, size, empty);
    assert(checks[2] == SessionCheckView::File { path, name, size, empty });
}

/// Before a job is started that is refused for nothing it says, the session directory and its parent
/// are looked at, and so is every file that the job names, each with the size that it must have; the
/// progress file is opened and emptied last.
pub proof fn every_file_is_examined(platform: Platform, job: WorkerJob, arguments: Seq<String>)
    requires
        refuses_nothing(preflight_plan(platform, job, arguments)),
    ensures
        job.progress is File,
        ({
            let plan = preflight_plan(platform, job, arguments);
            let directory = paths::path_text(paths::path_view(job.raw_path@).parent()->0);
            let progress = job.progress->path@;
            &&& plan.len() > 2
            &&& plan[0] == SessionCheckView::Directory(directory)
            &&& plan[1] is Parent
            &&& plan.contains(
                SessionCheckView::File {
                    path: arguments[2]@,
                    name: "worker-job.json"@,
                    size: None,
                    empty: false,
                },
            )
            &&& plan.contains(
                SessionCheckView::File {
                    path: job.raw_path@,
                    name: "snapdog-os.img"@,
                    size: Some(job.raw_size),
                    empty: false,
                },
            )
            &&& plan.contains(
                SessionCheckView::File {
                    path: progress,
                    name: "worker-progress.jsonl"@,
                    size: Some(0),
                    empty: true,
                },
            )
            &&& plan.contains(
                SessionCheckView::Marker { path: job.cancel_path->0@, name: "cancel"@ },
            )
            &&& plan.contains(
                SessionCheckView::Marker {
                    path: job.skip_verification_path->0@,
                    name: "skip-verification"@,
                },
            )
            &&& platform is MacOs ==> plan.contains(
                SessionCheckView::Socket(job.macos_target_socket->0@),
            )
            &&& plan.contains(SessionCheckView::RawImage(job.raw_path@))
            &&& plan.contains(SessionCheckView::OpenProgress(progress))
            &&& plan.last() == SessionCheckView::TruncateProgress(progress)
        }),
{
    let plan = preflight_plan(platform, job, arguments);
    if platform == Platform::MacOs && job.macos_target_socket is None {
        assert(plan[0] is Refuse);
    }
    if worker::arguments_fault(platform, arguments) is Some {
        assert(plan[0] is Refuse);
    }
    let job_path = arguments[2]@;
    unrefused_job_names_members(platform, job, job_path);
    let directory = paths::path_text(paths::path_view(job.raw_path@).parent()->0);
    if !paths::path_view(directory).is_clean_absolute() {
        assert(plan[0] is Refuse);
    }
    if paths::path_view(directory).parent() is None {
        assert(plan[1] is Refuse);
    }
    let parent = paths::path_text(paths::path_view(directory).parent()->0);
    let front = seq![SessionCheckView::Directory(directory), SessionCheckView::Parent(parent)];
    let members = member_plan(platform, job, job_path, directory, parent);
    assert(plan == front + members);
    let inputs = input_plan(job, job_path, directory, parent);
    let progress = job.progress->path@;
    let channels = channel_plan(platform, job, progress, directory, parent);
    let own = job_plan(platform, job);
    let opening = progress_checks(directory, parent, progress);
    assert(members == inputs + (channels + own + opening));
    let size = Some(job.raw_size);
    file_checks_hold_the_file(directory, parent, job_path, "worker-job.json"@, None, false);
    file_checks_hold_the_file(directory, parent, job.raw_path@, "snapdog-os.img"@, size, false);
    file_checks_hold_the_file(
        directory,
        parent,
        progress,
        "worker-progress.jsonl"@,
        Some(0),
        true,
    );
    let first = file_checks(directory, parent, job_path, "worker-job.json"@, None, false);
    let second = file_checks(directory, parent, job.raw_path@, "snapdog-os.img"@, size, false);
    let third = file_checks(
        directory,
        parent,
        progress,
        "worker-progress.jsonl"@,
        Some(0),
        true,
    );
    let cancel = marker_checks(directory, text::optional_text(job.cancel_path), "cancel"@);
    let skip = marker_checks(
        directory,
        text::optional_text(job.skip_verification_path),
        "skip-verification"@,
    );
    let socket = socket_checks(
        platform,
        directory,
        parent,
        text::optional_text(job.macos_target_socket),
    );
    assert forall|check: SessionCheckView|
        first.contains(check) || second.contains(check) || third.contains(check)
            || cancel.contains(check) || skip.contains(check) || socket.contains(check)
            || own.contains(check) || opening.contains(check) implies #[trigger] plan.contains(
        check,
    ) by {
        if first.contains(check) || second.contains(check) {
            concatenated_checks_hold_both(first, second, check);
        } else {
            if third.contains(check) || cancel.contains(check) || skip.contains(check)
                || socket.contains(check) {
                if third.contains(check) || cancel.contains(check) {
                    concatenated_checks_hold_both(third, cancel, check);
                }
                if (third + cancel).contains(check) || skip.contains(check) {
                    concatenated_checks_hold_both(third + cancel, skip, check);
                }
                concatenated_checks_hold_both(third + cancel + skip, socket, check);
            }
            if channels.contains(check) || own.contains(check) {
                concatenated_checks_hold_both(channels, own, check);
            }
            concatenated_checks_hold_both(channels + own, opening, check);
        }
        concatenated_checks_hold_both(inputs, channels + own + opening, check);
        concatenated_checks_hold_both(front, members, check);
    }
    assert(cancel[0] == SessionCheckView::Marker { path: job.cancel_path->0@, name: "cancel"@ });
    assert(skip[0] == SessionCheckView::Marker {
        path: job.skip_verification_path->0@,
        name: "skip-verification"@,
    });
    if platform is MacOs {
        assert(socket[2] == SessionCheckView::Socket(job.macos_target_socket->0@));
    }
    assert(own[0] == SessionCheckView::RawImage(job.raw_path@));
    let count = opening.len();
    assert(opening[count - 1] == SessionCheckView::TruncateProgress(progress));
    assert(opening[count - 4] == SessionCheckView::OpenProgress(progress));
    assert(plan.last() == opening.last());
}

/// The value of octal digits.
pub open spec fn octal_value(digits: Seq<char>) -> nat
    decreases digits.len(),
{
    if digits.len() == 0 {
        0
    } else {
        8 * octal_value(digits.drop_last()) + (digits.last() as nat - '0' as nat) as nat
    }
}

/// A mode is shown by its octal digits, which have its value.
pub proof fn shown_mode_reads_back(mode: nat)
    ensures
        octal_value(octal(mode)) == mode,
        forall|i: int| 0 <= i < octal(mode).len() ==> '0' <= #[trigger] octal(mode)[i] <= '7',
    decreases mode,
{
    reveal_with_fuel(octal_value, 2);
    if mode < 8 {
        assert(octal(mode).drop_last() =~= Seq::empty());
    } else {
        shown_mode_reads_back(mode / 8);
        assert(octal(mode).drop_last() =~= octal(mode / 8));
        assert forall|i: int| 0 <= i < octal(mode).len() implies '0' <= #[trigger] octal(mode)[i]
            <= '7' by {
            if i < octal(mode / 8).len() {
                assert(octal(mode)[i] == octal(mode / 8)[i]);
            }
        }
    }
}

} // verus!
