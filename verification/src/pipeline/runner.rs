//! Launching a worker process on Linux and macOS: its files are pinned before the process starts,
//! and the process is watched until it ends.

use vstd::prelude::*;
use vstd::string::*;

use crate::digest;
use crate::paths;
use crate::pipeline::command_line;
use crate::pipeline::command_line::worker_arguments;
use crate::pipeline::launch;
use crate::pipeline::launch::{
    validate_executable, FileIdentity, LaunchFacts, LaunchIdentity, PinAction, PinActionView,
    PinEvent, PinState, Pinning, MAX_WORKER_JOB_SIZE,
};
use crate::pipeline::monitor;
use crate::pipeline::monitor::{
    Monitor, MonitorAction, MonitorActionView, MonitorEvent, MonitorState, MonitorTask,
};
use crate::pipeline::{WorkerLaunch, WorkerLaunchView, WorkerRunnerError, WorkerRunnerErrorView};
use crate::text;
use crate::text::copy_text;
use crate::worker::Platform;

verus! {

broadcast use vstd::seq_lib::group_seq_properties;

/// What a launch waits for.
pub enum LaunchStage {
    /// What a look at the executable shows.
    Looking,
    /// What a look at the second path shows.
    LookingAtHelper,
    /// The executable is being pinned.
    PinningExecutable(Pinning),
    /// The job file is being pinned.
    PinningJob(Pinning),
    /// The progress file is to be opened.
    OpeningTail,
    /// Whether anything is at the path of the socket.
    CheckingSocket,
    /// The socket is to be bound.
    Binding,
    /// The process is to be started.
    Spawning,
    /// What a look at both files shows, now that the process runs.
    CheckingSpawned,
    /// The process is being watched.
    Watching(Monitor),
    /// The launch is over.
    Closed,
}

/// What a [`LaunchStage`] holds.
pub enum LaunchStageView {
    Looking,
    LookingAtHelper,
    PinningExecutable(PinState),
    PinningJob(PinState),
    OpeningTail,
    CheckingSocket,
    Binding,
    Spawning,
    CheckingSpawned,
    Watching(MonitorState),
    Closed,
}

impl View for LaunchStage {
    type V = LaunchStageView;

    open spec fn view(&self) -> LaunchStageView {
        match *self {
            LaunchStage::Looking => LaunchStageView::Looking,
            LaunchStage::LookingAtHelper => LaunchStageView::LookingAtHelper,
            LaunchStage::PinningExecutable(pinning) => LaunchStageView::PinningExecutable(pinning@),
            LaunchStage::PinningJob(pinning) => LaunchStageView::PinningJob(pinning@),
            LaunchStage::OpeningTail => LaunchStageView::OpeningTail,
            LaunchStage::CheckingSocket => LaunchStageView::CheckingSocket,
            LaunchStage::Binding => LaunchStageView::Binding,
            LaunchStage::Spawning => LaunchStageView::Spawning,
            LaunchStage::CheckingSpawned => LaunchStageView::CheckingSpawned,
            LaunchStage::Watching(monitor) => LaunchStageView::Watching(monitor@),
            LaunchStage::Closed => LaunchStageView::Closed,
        }
    }
}

/// What an access came to.
#[derive(Debug)]
pub enum LaunchEvent {
    /// What a look at the executable, or at the second path, came to.
    Looked(Result<LaunchFacts, String>),
    /// What an access to a file that is being pinned came to.
    Pin(PinEvent),
    /// The access succeeded.
    Done,
    /// The access failed.
    Failed(String),
    /// Whether anything is at the path of the socket.
    SocketExists(bool),
    /// What looks at both files came to.
    LookedAgain { executable: Result<LaunchFacts, String>, job: Result<LaunchFacts, String> },
    /// What watching the process came to.
    Watch(MonitorEvent),
}

/// What to do next.
#[derive(Debug)]
pub enum LaunchAction {
    /// Look at the executable, without following a final link.
    LookAtExecutable,
    /// Look at this path, without following a final link.
    LookAtHelper(String),
    /// Do this to pin the executable.
    PinExecutable(PinAction),
    /// Do this to pin the job file.
    PinJob(PinAction),
    /// Open the progress file for reading.
    OpenTail,
    /// Look whether anything is at this path.
    CheckSocket(String),
    /// Bind a private listener to this path.
    Bind(String),
    /// Start the executable with these arguments and the platform's opt-in.
    Spawn(Vec<String>),
    /// Look at the executable and at the job file.
    LookAgain,
    /// Do this to watch the process. A return or a failure ends the launch.
    Watch(MonitorAction),
    /// Kill and wait for the process, then report the error.
    Abort(WorkerRunnerError),
    /// Report the error.
    Fail(WorkerRunnerError),
}

/// What a [`LaunchAction`] holds.
pub enum LaunchActionView {
    LookAtExecutable,
    LookAtHelper(Seq<char>),
    PinExecutable(PinActionView),
    PinJob(PinActionView),
    OpenTail,
    CheckSocket(Seq<char>),
    Bind(Seq<char>),
    Spawn(Seq<Seq<char>>),
    LookAgain,
    Watch(MonitorActionView),
    Abort(WorkerRunnerErrorView),
    Fail(WorkerRunnerErrorView),
}

impl View for LaunchAction {
    type V = LaunchActionView;

    open spec fn view(&self) -> LaunchActionView {
        match *self {
            LaunchAction::LookAtExecutable => LaunchActionView::LookAtExecutable,
            LaunchAction::LookAtHelper(path) => LaunchActionView::LookAtHelper(path@),
            LaunchAction::PinExecutable(action) => LaunchActionView::PinExecutable(action@),
            LaunchAction::PinJob(action) => LaunchActionView::PinJob(action@),
            LaunchAction::OpenTail => LaunchActionView::OpenTail,
            LaunchAction::CheckSocket(path) => LaunchActionView::CheckSocket(path@),
            LaunchAction::Bind(path) => LaunchActionView::Bind(path@),
            LaunchAction::Spawn(arguments) => LaunchActionView::Spawn(text::texts(arguments@)),
            LaunchAction::LookAgain => LaunchActionView::LookAgain,
            LaunchAction::Watch(action) => LaunchActionView::Watch(action@),
            LaunchAction::Abort(error) => LaunchActionView::Abort(error@),
            LaunchAction::Fail(error) => LaunchActionView::Fail(error@),
        }
    }
}

/// The state of a launch.
pub struct LaunchState {
    pub platform: Platform,
    pub executable: Seq<char>,
    /// A second path that has to be as safe as the executable.
    pub helper: Option<Seq<char>>,
    pub launch: WorkerLaunchView,
    pub stage: LaunchStageView,
    /// The identities of the files that are pinned.
    pub identity: LaunchIdentity,
    /// The digest of the pinned job file.
    pub job_sha256: Seq<char>,
}

impl LaunchState {
    /// Whether the event answers what the launch waits for.
    pub open spec fn expects(self, event: LaunchEvent) -> bool {
        match self.stage {
            LaunchStageView::Looking | LaunchStageView::LookingAtHelper => event is Looked,
            LaunchStageView::PinningExecutable(pinning) | LaunchStageView::PinningJob(pinning) => {
                event matches LaunchEvent::Pin(inner) && pinning.expects(inner)
            },
            LaunchStageView::OpeningTail
            | LaunchStageView::Binding
            | LaunchStageView::Spawning => event is Done || event is Failed,
            LaunchStageView::CheckingSocket => event is SocketExists,
            LaunchStageView::CheckingSpawned => event is LookedAgain,
            LaunchStageView::Watching(monitor) => event matches LaunchEvent::Watch(inner)
                && monitor.expects(inner) && monitor.well_formed(),
            LaunchStageView::Closed => false,
        }
    }

    /// The launch goes on in another stage.
    pub open spec fn go(self, stage: LaunchStageView, action: LaunchActionView) -> (
        LaunchState,
        LaunchActionView,
    ) {
        (LaunchState { stage, ..self }, action)
    }

    /// The launch gives up.
    pub open spec fn fail(self, error: WorkerRunnerErrorView) -> (LaunchState, LaunchActionView) {
        self.go(LaunchStageView::Closed, LaunchActionView::Fail(error))
    }

    /// The executable is to be pinned.
    pub open spec fn pin_executable(self) -> (LaunchState, LaunchActionView) {
        if paths::path_view(self.executable).absolute {
            self.go(
                LaunchStageView::PinningExecutable(launch::pin_start(self.platform, None, true)),
                LaunchActionView::PinExecutable(PinActionView::LookAtPath),
            )
        } else {
            self.fail(WorkerRunnerErrorView::Io("launch file path must be absolute"@))
        }
    }

    /// The job file is to be pinned.
    pub open spec fn pin_job(self) -> (LaunchState, LaunchActionView) {
        if paths::path_view(self.launch.job_path).absolute {
            self.go(
                LaunchStageView::PinningJob(
                    launch::pin_start(self.platform, Some(MAX_WORKER_JOB_SIZE), false),
                ),
                LaunchActionView::PinJob(PinActionView::LookAtPath),
            )
        } else {
            self.fail(WorkerRunnerErrorView::Io("launch file path must be absolute"@))
        }
    }

    /// The process is to be started.
    pub open spec fn spawn(self) -> (LaunchState, LaunchActionView) {
        self.go(
            LaunchStageView::Spawning,
            LaunchActionView::Spawn(
                command_line::argument_texts(
                    self.platform,
                    self.launch.job_path,
                    self.job_sha256,
                ),
            ),
        )
    }

    /// The process is to be watched.
    pub open spec fn watch(self, cancelled: bool) -> (LaunchState, LaunchActionView) {
        let (monitor, action) = monitor::monitor_start(self.platform, cancelled);
        self.go(LaunchStageView::Watching(monitor), LaunchActionView::Watch(action))
    }

    /// What follows on an access to the executable that is being pinned.
    pub open spec fn executable_step(self, pinning: PinState, event: PinEvent) -> (
        LaunchState,
        LaunchActionView,
    ) {
        let (after, action) = pinning.step(event);
        match action {
            PinActionView::Pinned { identity, sha256 } => (LaunchState {
                identity: LaunchIdentity { executable: identity, ..self.identity },
                ..self
            }).pin_job(),
            PinActionView::Fail(error) => self.fail(error),
            _ => self.go(
                LaunchStageView::PinningExecutable(after),
                LaunchActionView::PinExecutable(action),
            ),
        }
    }

    /// What follows on an access to the job file that is being pinned.
    pub open spec fn job_step(self, pinning: PinState, event: PinEvent) -> (
        LaunchState,
        LaunchActionView,
    ) {
        let (after, action) = pinning.step(event);
        match action {
            PinActionView::Pinned { identity, sha256 } => (LaunchState {
                identity: LaunchIdentity { job: identity, ..self.identity },
                job_sha256: sha256,
                ..self
            }).go(LaunchStageView::OpeningTail, LaunchActionView::OpenTail),
            PinActionView::Fail(error) => self.fail(error),
            _ => self.go(LaunchStageView::PinningJob(after), LaunchActionView::PinJob(action)),
        }
    }

    /// The access that the launch waited for has succeeded.
    pub open spec fn done(self, cancelled: bool) -> (LaunchState, LaunchActionView) {
        match self.stage {
            LaunchStageView::OpeningTail => if self.platform == Platform::MacOs {
                match self.launch.macos_target_socket {
                    None => self.fail(
                        WorkerRunnerErrorView::Io("macOS authorized target socket is missing"@),
                    ),
                    Some(path) => if !paths::path_view(path).absolute {
                        self.fail(
                            WorkerRunnerErrorView::Io(
                                "macOS authorized target socket path is invalid"@,
                            ),
                        )
                    } else {
                        self.go(
                            LaunchStageView::CheckingSocket,
                            LaunchActionView::CheckSocket(path),
                        )
                    },
                }
            } else {
                self.spawn()
            },
            LaunchStageView::Binding => self.spawn(),
            _ => if self.platform == Platform::MacOs {
                self.watch(cancelled)
            } else {
                self.go(LaunchStageView::CheckingSpawned, LaunchActionView::LookAgain)
            },
        }
    }

    /// What a look at the executable, or at the second path, came to. Both are checked before
    /// anything is opened.
    pub open spec fn looked(self, looked: Result<LaunchFacts, String>) -> (
        LaunchState,
        LaunchActionView,
    ) {
        match (self.stage, self.helper) {
            (LaunchStageView::LookingAtHelper, Some(path)) => {
                match launch::executable_fault(path, looked) {
                    Some(fault) => self.fail(fault),
                    None => self.pin_executable(),
                }
            },
            (_, helper) => match launch::executable_fault(self.executable, looked) {
                Some(fault) => self.fail(fault),
                None => match helper {
                    Some(path) => self.go(
                        LaunchStageView::LookingAtHelper,
                        LaunchActionView::LookAtHelper(path),
                    ),
                    None => self.pin_executable(),
                },
            },
        }
    }

    /// What follows on an event.
    pub open spec fn step(self, event: LaunchEvent, cancelled: bool) -> (
        LaunchState,
        LaunchActionView,
    ) {
        match event {
            LaunchEvent::Looked(looked) => self.looked(looked),
            LaunchEvent::Pin(inner) => match self.stage {
                LaunchStageView::PinningExecutable(pinning) => self.executable_step(pinning, inner),
                LaunchStageView::PinningJob(pinning) => self.job_step(pinning, inner),
                _ => self.fail(WorkerRunnerErrorView::Unsupported),
            },
            LaunchEvent::Done => self.done(cancelled),
            LaunchEvent::Failed(cause) => self.fail(WorkerRunnerErrorView::Io(cause@)),
            LaunchEvent::SocketExists(found) => if found {
                self.fail(
                    WorkerRunnerErrorView::Io("macOS authorized target socket path is invalid"@),
                )
            } else {
                self.go(
                    LaunchStageView::Binding,
                    LaunchActionView::Bind(self.launch.macos_target_socket->0),
                )
            },
            LaunchEvent::LookedAgain { executable, job } => match launch::launch_change_fault(
                self.platform,
                self.identity,
                executable,
                job,
            ) {
                Some(fault) => self.go(LaunchStageView::Closed, LaunchActionView::Abort(fault)),
                None => self.watch(cancelled),
            },
            LaunchEvent::Watch(inner) => match self.stage {
                LaunchStageView::Watching(monitor) => {
                    let (after, action) = monitor.step(inner, cancelled);
                    self.go(
                        if action.task is Return || action.task is Fail {
                            LaunchStageView::Closed
                        } else {
                            LaunchStageView::Watching(after)
                        },
                        LaunchActionView::Watch(action),
                    )
                },
                _ => self.fail(WorkerRunnerErrorView::Unsupported),
            },
        }
    }

    /// What a launch keeps: a second path and a socket are looked at only where one is named, and a
    /// watch is one of this platform.
    pub open spec fn well_formed(self) -> bool {
        &&& self.platform != Platform::Windows
        &&& self.stage is LookingAtHelper ==> self.helper is Some
        &&& self.stage is CheckingSocket ==> self.launch.macos_target_socket is Some
        &&& self.stage matches LaunchStageView::Watching(monitor) ==> monitor.well_formed()
    }
}

/// How a launch begins: Linux checks the executable, and a second path where there is one, before
/// anything is pinned.
pub open spec fn launch_start(
    platform: Platform,
    executable: Seq<char>,
    helper: Option<Seq<char>>,
    launch: WorkerLaunchView,
) -> (LaunchState, LaunchActionView) {
    let state = LaunchState {
        platform,
        executable,
        helper,
        launch,
        stage: LaunchStageView::Looking,
        identity: LaunchIdentity {
            executable: launch::no_identity(),
            job: launch::no_identity(),
        },
        job_sha256: Seq::empty(),
    };
    if platform == Platform::MacOs {
        state.pin_executable()
    } else {
        state.go(LaunchStageView::Looking, LaunchActionView::LookAtExecutable)
    }
}

/// One launch of a worker process.
pub struct WorkerProcessRun {
    platform: Platform,
    executable: String,
    helper: Option<String>,
    launch: WorkerLaunch,
    stage: LaunchStage,
    identity: LaunchIdentity,
    job_sha256: String,
}

impl View for WorkerProcessRun {
    type V = LaunchState;

    closed spec fn view(&self) -> LaunchState {
        LaunchState {
            platform: self.platform,
            executable: self.executable@,
            helper: text::optional_text(self.helper),
            launch: self.launch@,
            stage: self.stage@,
            identity: self.identity,
            job_sha256: self.job_sha256@,
        }
    }
}

fn io_error(reason: &str) -> (error: WorkerRunnerError)
    ensures
        error@ == WorkerRunnerErrorView::Io(reason@),
{
    WorkerRunnerError::Io(reason.to_owned())
}

impl WorkerProcessRun {
    /// Begin to launch an executable as a worker.
    pub fn start(
        platform: Platform,
        executable: String,
        helper: Option<String>,
        launch: WorkerLaunch,
    ) -> (result: (WorkerProcessRun, LaunchAction))
        requires
            platform != Platform::Windows,
        ensures
            (result.0@, result.1@) == launch_start(
                platform,
                executable@,
                text::optional_text(helper),
                launch@,
            ),
            result.0@.well_formed(),
    {
        let mut run = WorkerProcessRun {
            platform,
            executable,
            helper,
            launch,
            stage: LaunchStage::Looking,
            identity: LaunchIdentity { executable: FileIdentity::none(), job: FileIdentity::none() },
            job_sha256: String::new(),
        };
        assert(run.job_sha256@ =~= Seq::<char>::empty());
        let action = if platform == Platform::MacOs {
            run.pin_executable()
        } else {
            LaunchAction::LookAtExecutable
        };
        (run, action)
    }

    /// The identities of the files that are pinned.
    pub fn identity(&self) -> (identity: LaunchIdentity)
        ensures
            identity == self@.identity,
    {
        self.identity
    }

    fn fail(&mut self, error: WorkerRunnerError) -> (action: LaunchAction)
        ensures
            (final(self)@, action@) == old(self)@.fail(error@),
    {
        self.stage = LaunchStage::Closed;
        LaunchAction::Fail(error)
    }

    fn pin_executable(&mut self) -> (action: LaunchAction)
        ensures
            (final(self)@, action@) == old(self)@.pin_executable(),
    {
        match Pinning::start(self.platform, self.executable.as_str(), None, true) {
            Err(error) => self.fail(error),
            Ok((pinning, action)) => {
                self.stage = LaunchStage::PinningExecutable(pinning);
                LaunchAction::PinExecutable(action)
            },
        }
    }

    fn pin_job(&mut self) -> (action: LaunchAction)
        ensures
            (final(self)@, action@) == old(self)@.pin_job(),
    {
        match Pinning::start(
            self.platform,
            self.launch.job_path.as_str(),
            Some(MAX_WORKER_JOB_SIZE),
            false,
        ) {
            Err(error) => self.fail(error),
            Ok((pinning, action)) => {
                self.stage = LaunchStage::PinningJob(pinning);
                LaunchAction::PinJob(action)
            },
        }
    }

    fn spawn(&mut self) -> (action: LaunchAction)
        ensures
            (final(self)@, action@) == old(self)@.spawn(),
    {
        self.stage = LaunchStage::Spawning;
        LaunchAction::Spawn(
            worker_arguments(
                self.platform,
                self.launch.job_path.as_str(),
                self.job_sha256.as_str(),
            ),
        )
    }

    fn watch(&mut self, cancelled: bool) -> (action: LaunchAction)
        ensures
            (final(self)@, action@) == old(self)@.watch(cancelled),
            final(self)@.stage matches LaunchStageView::Watching(monitor) && monitor.well_formed(),
    {
        let (monitor, action) = Monitor::start(self.platform, cancelled);
        self.stage = LaunchStage::Watching(monitor);
        LaunchAction::Watch(action)
    }

    fn executable_step(&mut self, pinning: Pinning, event: &PinEvent) -> (action: LaunchAction)
        requires
            pinning@.expects(*event),
        ensures
            (final(self)@, action@) == old(self)@.executable_step(pinning@, *event),
    {
        let mut pinning = pinning;
        match pinning.step(event) {
            PinAction::Pinned { identity, sha256: _ } => {
                self.identity.executable = identity;
                self.pin_job()
            },
            PinAction::Fail(error) => self.fail(error),
            action => {
                self.stage = LaunchStage::PinningExecutable(pinning);
                LaunchAction::PinExecutable(action)
            },
        }
    }

    fn job_step(&mut self, pinning: Pinning, event: &PinEvent) -> (action: LaunchAction)
        requires
            pinning@.expects(*event),
        ensures
            (final(self)@, action@) == old(self)@.job_step(pinning@, *event),
    {
        let mut pinning = pinning;
        match pinning.step(event) {
            PinAction::Pinned { identity, sha256 } => {
                self.identity.job = identity;
                self.job_sha256 = sha256;
                self.stage = LaunchStage::OpeningTail;
                LaunchAction::OpenTail
            },
            PinAction::Fail(error) => self.fail(error),
            action => {
                self.stage = LaunchStage::PinningJob(pinning);
                LaunchAction::PinJob(action)
            },
        }
    }

    fn tail_opened(&mut self) -> (action: LaunchAction)
        requires
            old(self)@.stage is OpeningTail,
        ensures
            (final(self)@, action@) == old(self)@.done(false),
    {
        if self.platform != Platform::MacOs {
            return self.spawn();
        }
        let path = match &self.launch.macos_target_socket {
            None => {
                return self.fail(io_error("macOS authorized target socket is missing"));
            },
            Some(path) => path.clone(),
        };
        if !paths::is_absolute(path.as_str()) {
            return self.fail(io_error("macOS authorized target socket path is invalid"));
        }
        self.stage = LaunchStage::CheckingSocket;
        LaunchAction::CheckSocket(path)
    }

    /// What follows on an event. `cancelled` tells whether the user has cancelled by then.
    pub fn step(&mut self, event: LaunchEvent, cancelled: bool) -> (action: LaunchAction)
        requires
            old(self)@.well_formed(),
            old(self)@.expects(event),
        ensures
            (final(self)@, action@) == old(self)@.step(event, cancelled),
            final(self)@.well_formed(),
    {
        let mut stage = LaunchStage::Closed;
        core::mem::swap(&mut stage, &mut self.stage);
        match (stage, event) {
            (LaunchStage::Looking, LaunchEvent::Looked(looked)) => {
                match validate_executable(self.executable.as_str(), &looked) {
                    Err(error) => {
                        return self.fail(error);
                    },
                    Ok(()) => {},
                }
                match copy_text(&self.helper) {
                    Some(path) => {
                        self.stage = LaunchStage::LookingAtHelper;
                        LaunchAction::LookAtHelper(path)
                    },
                    None => self.pin_executable(),
                }
            },
            (LaunchStage::LookingAtHelper, LaunchEvent::Looked(looked)) => {
                let result = match &self.helper {
                    Some(path) => validate_executable(path.as_str(), &looked),
                    None => vstd::pervasive::unreached(),
                };
                match result {
                    Err(error) => self.fail(error),
                    Ok(()) => self.pin_executable(),
                }
            },
            (LaunchStage::PinningExecutable(pinning), LaunchEvent::Pin(inner)) => {
                self.executable_step(pinning, &inner)
            },
            (LaunchStage::PinningJob(pinning), LaunchEvent::Pin(inner)) => {
                self.job_step(pinning, &inner)
            },
            (LaunchStage::OpeningTail, LaunchEvent::Done) => {
                self.stage = LaunchStage::OpeningTail;
                self.tail_opened()
            },
            (LaunchStage::CheckingSocket, LaunchEvent::SocketExists(found)) => {
                if found {
                    return self.fail(io_error("macOS authorized target socket path is invalid"));
                }
                self.stage = LaunchStage::Binding;
                match &self.launch.macos_target_socket {
                    Some(path) => LaunchAction::Bind(path.clone()),
                    None => vstd::pervasive::unreached(),
                }
            },
            (LaunchStage::Binding, LaunchEvent::Done) => self.spawn(),
            (LaunchStage::Spawning, LaunchEvent::Done) => {
                if self.platform == Platform::MacOs {
                    self.watch(cancelled)
                } else {
                    self.stage = LaunchStage::CheckingSpawned;
                    LaunchAction::LookAgain
                }
            },
            (LaunchStage::CheckingSpawned, LaunchEvent::LookedAgain { executable, job }) => {
                match self.identity.ensure_unchanged(self.platform, &executable, &job) {
                    Err(error) => LaunchAction::Abort(error),
                    Ok(()) => self.watch(cancelled),
                }
            },
            (LaunchStage::Watching(mut monitor), LaunchEvent::Watch(inner)) => {
                let action = monitor.step(inner, cancelled);
                if !matches!(action.task, MonitorTask::Return | MonitorTask::Fail(_)) {
                    self.stage = LaunchStage::Watching(monitor);
                }
                LaunchAction::Watch(action)
            },
            (_, LaunchEvent::Failed(cause)) => self.fail(WorkerRunnerError::Io(cause)),
            _ => vstd::pervasive::unreached(),
        }
    }
}

// ---------------------------------------------------------------------------------------------
// Whole launches
// ---------------------------------------------------------------------------------------------

/// An event, and whether the user has cancelled by then.
pub struct LaunchInput {
    pub event: LaunchEvent,
    pub cancelled: bool,
}

/// The state after some events.
pub open spec fn launch_after(start: LaunchState, inputs: Seq<LaunchInput>) -> LaunchState
    decreases inputs.len(),
{
    if inputs.len() == 0 {
        start
    } else {
        launch_after(start, inputs.drop_last()).step(inputs.last().event, inputs.last().cancelled).0
    }
}

/// Whether each event answers what the launch waited for.
pub open spec fn launch_accepts(start: LaunchState, inputs: Seq<LaunchInput>) -> bool
    decreases inputs.len(),
{
    inputs.len() == 0 || (launch_accepts(start, inputs.drop_last()) && launch_after(
        start,
        inputs.drop_last(),
    ).expects(inputs.last().event))
}

/// The bytes that were read of the job file while it was being pinned.
pub open spec fn job_bytes(start: LaunchState, inputs: Seq<LaunchInput>) -> Seq<u8>
    decreases inputs.len(),
{
    if inputs.len() == 0 {
        Seq::empty()
    } else {
        let before = job_bytes(start, inputs.drop_last());
        match inputs.last().event {
            LaunchEvent::Pin(inner) => if launch_after(start, inputs.drop_last()).stage
                is PinningJob {
                before + inner.bytes()
            } else {
                before
            },
            _ => before,
        }
    }
}

/// Whether a look at the executable found it safe.
pub open spec fn executable_was_validated(start: LaunchState, inputs: Seq<LaunchInput>) -> bool {
    exists|i: int|
        0 <= i < inputs.len() && (#[trigger] launch_after(start, inputs.take(i))).stage is Looking
            && found_safe(start.executable, inputs[i].event)
}

/// Whether a look at the second path found it safe.
pub open spec fn helper_was_validated(start: LaunchState, inputs: Seq<LaunchInput>) -> bool {
    exists|i: int|
        0 <= i < inputs.len() && (#[trigger] launch_after(start, inputs.take(i))).stage
            is LookingAtHelper && found_safe(start.helper->0, inputs[i].event)
}

/// Whether an event is a look that found a path safe.
pub open spec fn found_safe(path: Seq<char>, event: LaunchEvent) -> bool {
    event matches LaunchEvent::Looked(looked) && launch::executable_fault(path, looked) is None
}

/// Whether nothing is being pinned yet.
spec fn is_looking(stage: LaunchStageView) -> bool {
    stage is Looking || stage is LookingAtHelper
}

/// Whether the job file is not being pinned yet.
spec fn is_early(stage: LaunchStageView) -> bool {
    is_looking(stage) || stage is PinningExecutable
}

spec fn launch_keeps(start: LaunchState, inputs: Seq<LaunchInput>) -> bool {
    let state = launch_after(start, inputs);
    &&& state.platform == start.platform
    &&& state.launch == start.launch
    &&& state.executable == start.executable
    &&& state.helper == start.helper
    &&& state.stage is LookingAtHelper ==> start.helper is Some
    &&& start.stage is Looking && !(state.stage is Looking || state.stage is Closed)
        ==> executable_was_validated(start, inputs)
    &&& start.stage is Looking && !(is_looking(state.stage) || state.stage is Closed)
        && start.helper is Some ==> helper_was_validated(start, inputs)
    &&& is_early(state.stage) ==> job_bytes(start, inputs) == Seq::<u8>::empty()
    &&& match state.stage {
        LaunchStageView::PinningJob(pinning) => pinning.read == job_bytes(start, inputs),
        LaunchStageView::Closed => true,
        _ => is_early(state.stage) || state.job_sha256 == digest::sha256_text(
            job_bytes(start, inputs),
        ),
    }
}

proof fn earlier_looks_stay(start: LaunchState, inputs: Seq<LaunchInput>)
    requires
        inputs.len() > 0,
    ensures
        executable_was_validated(start, inputs.drop_last()) ==> executable_was_validated(
            start,
            inputs,
        ),
        helper_was_validated(start, inputs.drop_last()) ==> helper_was_validated(start, inputs),
{
    let before = inputs.drop_last();
    if executable_was_validated(start, before) {
        let i = choose|i: int|
            0 <= i < before.len() && (#[trigger] launch_after(start, before.take(i))).stage
                is Looking && found_safe(start.executable, before[i].event);
        assert(before.take(i) =~= inputs.take(i));
        assert(launch_after(start, inputs.take(i)).stage is Looking);
    }
    if helper_was_validated(start, before) {
        let i = choose|i: int|
            0 <= i < before.len() && (#[trigger] launch_after(start, before.take(i))).stage
                is LookingAtHelper && found_safe(start.helper->0, before[i].event);
        assert(before.take(i) =~= inputs.take(i));
        assert(launch_after(start, inputs.take(i)).stage is LookingAtHelper);
    }
}

proof fn launch_is_kept(start: LaunchState, inputs: Seq<LaunchInput>)
    requires
        is_early(start.stage) || start.stage is Closed,
        !(start.stage is LookingAtHelper),
        launch_accepts(start, inputs),
    ensures
        launch_keeps(start, inputs),
    decreases inputs.len(),
{
    if inputs.len() > 0 {
        let before = inputs.drop_last();
        launch_is_kept(start, before);
        earlier_looks_stay(start, inputs);
        let state = launch_after(start, before);
        let last = inputs.len() - 1;
        assert(inputs.take(last) =~= before);
        assert(launch_after(start, inputs.take(last)) == state);
        match (state.stage, inputs.last().event) {
            (LaunchStageView::PinningJob(pinning), LaunchEvent::Pin(inner)) => {
                let (after, action) = pinning.step(inner);
                assert(action is Pinned ==> inner.bytes() =~= Seq::<u8>::empty());
                assert(job_bytes(start, inputs) =~= after.read || action is Fail);
            },
            _ => {},
        }
    }
}

/// A worker process is started only after its job file was pinned, and with the digest of exactly
/// the bytes that were read of it: arguments that the worker accepts.
pub proof fn worker_is_started_with_the_digest_of_its_job(
    platform: Platform,
    executable: Seq<char>,
    helper: Option<Seq<char>>,
    launch: WorkerLaunchView,
    inputs: Seq<LaunchInput>,
    event: LaunchEvent,
    cancelled: bool,
)
    requires
        ({
            let start = launch_start(platform, executable, helper, launch).0;
            &&& launch_accepts(start, inputs)
            &&& launch_after(start, inputs).expects(event)
            &&& launch_after(start, inputs).step(event, cancelled).1 is Spawn
        }),
    ensures
        ({
            let start = launch_start(platform, executable, helper, launch).0;
            let sha256 = digest::sha256_text(job_bytes(start, inputs));
            &&& launch_after(start, inputs).step(event, cancelled).1 == LaunchActionView::Spawn(
                command_line::argument_texts(platform, launch.job_path, sha256),
            )
            &&& digest::is_sha256_text(sha256)
        }),
{
    let start = launch_start(platform, executable, helper, launch).0;
    launch_is_kept(start, inputs);
    digest::digest_text_is_a_digest(job_bytes(start, inputs));
}

/// On Linux no worker process is started, and no file opened, before a look at the executable found
/// it safe, and likewise a look at the second path where one was given.
pub proof fn every_path_is_validated_before_the_launch(
    executable: Seq<char>,
    helper: Option<Seq<char>>,
    launch: WorkerLaunchView,
    inputs: Seq<LaunchInput>,
    event: LaunchEvent,
    cancelled: bool,
)
    requires
        ({
            let start = launch_start(Platform::Linux, executable, helper, launch).0;
            &&& launch_accepts(start, inputs)
            &&& launch_after(start, inputs).expects(event)
            &&& {
                let action = launch_after(start, inputs).step(event, cancelled).1;
                !(action is LookAtHelper || action is Fail)
            }
        }),
    ensures
        ({
            let start = launch_start(Platform::Linux, executable, helper, launch).0;
            let all = inputs.push(LaunchInput { event, cancelled });
            &&& executable_was_validated(start, all)
            &&& helper is Some ==> helper_was_validated(start, all)
        }),
{
    let start = launch_start(Platform::Linux, executable, helper, launch).0;
    let all = inputs.push(LaunchInput { event, cancelled });
    assert(all.drop_last() =~= inputs);
    launch_is_kept(start, inputs);
    earlier_looks_stay(start, all);
    let last = all.len() - 1;
    assert(all.take(last) =~= inputs);
    assert(launch_after(start, all.take(last)) == launch_after(start, inputs));
    assert(all[last].event == event);
}

/// On Linux an untroubled launch looks at the executable, and at the second path where there is one,
/// and goes on to pin the executable.
pub proof fn safe_paths_lead_to_the_pinning(
    executable: Seq<char>,
    helper: Option<Seq<char>>,
    launch: WorkerLaunchView,
    looked: Result<LaunchFacts, String>,
    second: Result<LaunchFacts, String>,
    cancelled: bool,
)
    requires
        launch::executable_fault(executable, looked) is None,
        helper matches Some(path) ==> launch::executable_fault(path, second) is None,
    ensures
        ({
            let (start, looks) = launch_start(Platform::Linux, executable, helper, launch);
            let (next, action) = start.step(LaunchEvent::Looked(looked), cancelled);
            let (last, pins) = match helper {
                Some(_) => next.step(LaunchEvent::Looked(second), cancelled),
                None => (next, action),
            };
            &&& looks is LookAtExecutable
            &&& helper matches Some(path) ==> action == LaunchActionView::LookAtHelper(path)
            &&& pins == LaunchActionView::PinExecutable(PinActionView::LookAtPath)
            &&& last.stage matches LaunchStageView::PinningExecutable(pinning) && pinning.phase
                is LookingBefore && pinning.require_executable && pinning.maximum_size is None
                && pinning.read.len() == 0
        }),
{
}

/// On macOS a launch begins with the pinning of an executable whose path starts at the root.
pub proof fn macos_launch_begins_with_the_pinning(
    executable: Seq<char>,
    launch: WorkerLaunchView,
)
    requires
        executable.len() > 0 && executable[0] == '/',
    ensures
        ({
            let (start, pins) = launch_start(Platform::MacOs, executable, None, launch);
            &&& pins == LaunchActionView::PinExecutable(PinActionView::LookAtPath)
            &&& start.stage matches LaunchStageView::PinningExecutable(pinning) && pinning.phase
                is LookingBefore && pinning.require_executable && pinning.maximum_size is None
                && pinning.read.len() == 0
        }),
{
}

/// What pinning asks for is done to the file that is being pinned. A pinned executable is followed
/// by the job file, of at most the allowed size, and a pinned job file by the progress file; what
/// was pinned is kept, with the digest of the job.
pub proof fn pinned_files_are_kept(state: LaunchState, event: PinEvent, cancelled: bool)
    requires
        state.launch.job_path.len() > 0 && state.launch.job_path[0] == '/',
    ensures
        state.stage matches LaunchStageView::PinningExecutable(pinning) ==> {
            let (after, action) = state.step(LaunchEvent::Pin(event), cancelled);
            match pinning.step(event).1 {
                PinActionView::Pinned { identity, .. } => {
                    &&& action == LaunchActionView::PinJob(PinActionView::LookAtPath)
                    &&& after.identity.executable == identity
                    &&& after.stage matches LaunchStageView::PinningJob(job) && job.phase
                        is LookingBefore && job.maximum_size == Some(65_536u64)
                        && !job.require_executable && job.read.len() == 0
                },
                PinActionView::Fail(error) => action == LaunchActionView::Fail(error),
                wanted => action == LaunchActionView::PinExecutable(wanted) && after.stage
                    == LaunchStageView::PinningExecutable(pinning.step(event).0),
            }
        },
        state.stage matches LaunchStageView::PinningJob(pinning) ==> {
            let (after, action) = state.step(LaunchEvent::Pin(event), cancelled);
            match pinning.step(event).1 {
                PinActionView::Pinned { identity, sha256 } => {
                    &&& action is OpenTail
                    &&& after.identity.job == identity
                    &&& after.identity.executable == state.identity.executable
                    &&& after.job_sha256 == sha256
                },
                PinActionView::Fail(error) => action == LaunchActionView::Fail(error),
                wanted => action == LaunchActionView::PinJob(wanted) && after.stage
                    == LaunchStageView::PinningJob(pinning.step(event).0),
            }
        },
{
}

/// Once the files are pinned, an untroubled launch on Linux starts the process with its job and the
/// digest of it, compares both files once more, and watches the process.
pub proof fn pinned_worker_is_started_and_watched(
    state: LaunchState,
    executable: Result<LaunchFacts, String>,
    job: Result<LaunchFacts, String>,
)
    requires
        state.platform is Linux,
        state.stage is OpeningTail,
        launch::launch_change_fault(state.platform, state.identity, executable, job) is None,
    ensures
        ({
            let (first, spawns) = state.step(LaunchEvent::Done, false);
            let (second, looks) = first.step(LaunchEvent::Done, false);
            let (third, watches) = second.step(
                LaunchEvent::LookedAgain { executable, job },
                false,
            );
            &&& spawns == LaunchActionView::Spawn(
                command_line::argument_texts(
                    Platform::Linux,
                    state.launch.job_path,
                    state.job_sha256,
                ),
            )
            &&& looks is LookAgain
            &&& watches matches LaunchActionView::Watch(action) && action.task is CheckIdentity
            &&& third.stage matches LaunchStageView::Watching(monitor) && monitor.error is None
                && monitor.wait_error is None && !monitor.saw_event && !monitor.cancel_sent
        }),
{
}

/// Once the files are pinned, an untroubled launch on macOS binds the socket of the authorized
/// target, where nothing is yet, then starts the process and watches it.
pub proof fn macos_worker_is_started_behind_its_socket(state: LaunchState, path: Seq<char>)
    requires
        state.platform is MacOs,
        state.stage is OpeningTail,
        state.launch.macos_target_socket == Some(path),
        path.len() > 0 && path[0] == '/',
    ensures
        ({
            let (first, checks) = state.step(LaunchEvent::Done, false);
            let (second, binds) = first.step(LaunchEvent::SocketExists(false), false);
            let (third, spawns) = second.step(LaunchEvent::Done, false);
            let (fourth, watches) = third.step(LaunchEvent::Done, false);
            &&& checks == LaunchActionView::CheckSocket(path)
            &&& binds == LaunchActionView::Bind(path)
            &&& spawns == LaunchActionView::Spawn(
                command_line::argument_texts(
                    Platform::MacOs,
                    state.launch.job_path,
                    state.job_sha256,
                ),
            )
            &&& watches matches LaunchActionView::Watch(action) && action.task is CheckIdentity
            &&& fourth.stage is Watching
            &&& first.step(LaunchEvent::SocketExists(true), false).1 is Fail
        }),
{
}

/// What watching asks for is done, and the launch is over exactly when the watch is.
pub proof fn launch_follows_its_watch(
    state: LaunchState,
    event: MonitorEvent,
    cancelled: bool,
)
    requires
        state.stage is Watching,
    ensures
        ({
            let (monitor, wanted) = state.stage->Watching_0.step(event, cancelled);
            let (after, action) = state.step(LaunchEvent::Watch(event), cancelled);
            &&& action == LaunchActionView::Watch(wanted)
            &&& after.stage is Closed <==> wanted.task is Return || wanted.task is Fail
            &&& !(after.stage is Closed) ==> after.stage == LaunchStageView::Watching(monitor)
        }),
{
}

/// A launch fails only for a reason: an access failed, a file is not safe or changed, or a path that
/// it needs is missing, taken or not absolute. A process that runs already is killed first.
pub proof fn failed_launch_has_its_reason(
    state: LaunchState,
    event: LaunchEvent,
    cancelled: bool,
)
    requires
        state.well_formed(),
        state.expects(event),
    ensures
        event matches LaunchEvent::Failed(cause) ==> state.step(event, cancelled).1
            == LaunchActionView::Fail(WorkerRunnerErrorView::Io(cause@)),
        state.step(event, cancelled).1 is Abort <==> (event matches LaunchEvent::LookedAgain {
            executable,
            job,
        } && launch::launch_change_fault(state.platform, state.identity, executable, job) is Some),
        state.step(event, cancelled).1 is Fail && !(event is Failed) ==> match event {
            LaunchEvent::Looked(looked) => {
                ||| launch::executable_fault(state.executable, looked) is Some
                ||| state.stage is LookingAtHelper && launch::executable_fault(
                    state.helper->0,
                    looked,
                ) is Some
                ||| state.executable.len() == 0 || state.executable[0] != '/'
            },
            LaunchEvent::Pin(inner) => {
                ||| state.stage matches LaunchStageView::PinningExecutable(pinning)
                    && pinning.step(inner).1 is Fail
                ||| state.stage matches LaunchStageView::PinningJob(pinning) && pinning.step(
                    inner,
                ).1 is Fail
                ||| state.launch.job_path.len() == 0 || state.launch.job_path[0] != '/'
            },
            LaunchEvent::SocketExists(found) => found,
            LaunchEvent::Done => state.platform is MacOs && state.stage is OpeningTail && (
            state.launch.macos_target_socket matches Some(path) ==> path.len() == 0 || path[0]
                != '/'),
            _ => false,
        },
{
}

/// Nothing that goes wrong is passed over before a worker is started: an executable that must not be
/// launched, a file that cannot be pinned and a socket that is there already end the launch.
pub proof fn trouble_ends_the_launch(state: LaunchState, event: LaunchEvent, cancelled: bool)
    requires
        state.well_formed(),
        state.expects(event),
    ensures
        event matches LaunchEvent::Looked(looked) ==> {
            &&& !(state.stage is LookingAtHelper) && launch::executable_fault(
                state.executable,
                looked,
            ) is Some ==> state.step(event, cancelled).1 is Fail
            &&& state.stage is LookingAtHelper && (state.helper matches Some(path)
                && launch::executable_fault(path, looked) is Some) ==> state.step(
                event,
                cancelled,
            ).1 is Fail
        },
        event matches LaunchEvent::Pin(inner) ==> {
            &&& (state.stage matches LaunchStageView::PinningExecutable(pinning) && pinning.step(
                inner,
            ).1 is Fail) ==> state.step(event, cancelled).1 is Fail
            &&& (state.stage matches LaunchStageView::PinningJob(pinning) && pinning.step(
                inner,
            ).1 is Fail) ==> state.step(event, cancelled).1 is Fail
        },
        event == LaunchEvent::SocketExists(true) ==> state.step(event, cancelled).1 is Fail,
{
}

} // verus!
