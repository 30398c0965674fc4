//! The Windows runner: the worker is the same executable, elevated through the UAC prompt with its
//! files pinned against replacement.

use vstd::prelude::*;
use vstd::string::*;

use crate::digest;
use crate::paths;
use crate::paths::name_extension;
use crate::pipeline;
use crate::pipeline::command_line;
use crate::pipeline::command_line::worker_arguments;
use crate::pipeline::launch;
use crate::pipeline::launch::{
    job_digest, validate_job_size, validate_pinned, validate_unpinned, MAX_WORKER_JOB_SIZE,
};
use crate::pipeline::monitor;
use crate::pipeline::monitor::{
    Monitor, MonitorAction, MonitorActionView, MonitorEvent, MonitorState, MonitorTask,
};
use crate::pipeline::{WorkerLaunch, WorkerLaunchView, WorkerRunnerError, WorkerRunnerErrorView};
use crate::text;
use crate::text::{chars_of, same_ignoring_case, text_between};
use crate::worker::windows_paths;
use crate::worker::windows_session::WindowsFileFacts;
use crate::worker::Platform;

verus! {

broadcast use vstd::seq_lib::group_seq_properties;

/// Share mode for an open that denies others to write or delete the file.
pub const FILE_SHARE_READ: u32 = 0x1;

/// Launches this executable as an administrator through the Windows UAC prompt.
#[derive(Clone, Debug)]
pub struct WindowsWorkerRunner {
    pub executable: String,
}

/// The text behind the last separator of a path.
pub open spec fn last_name(path: Seq<char>) -> Seq<char>
    decreases path.len(),
{
    if path.len() == 0 || windows_paths::is_separator(path.last()) {
        Seq::empty()
    } else {
        last_name(path.drop_last()).push(path.last())
    }
}

/// The text behind the last separator of a path.
pub fn name_of(path: &str) -> (name: String)
    ensures
        name@ == last_name(path@),
{
    let characters = chars_of(path);
    let mut start: usize = 0;
    let mut index: usize = 0;
    assert(path@.take(0) =~= Seq::empty());
    while index < characters.len()
        invariant
            start <= index <= characters@.len(),
            characters@ == path@,
            last_name(path@.take(index as int)) == path@.subrange(start as int, index as int),
        decreases characters@.len() - index,
    {
        let ghost upto = path@.take(index as int + 1);
        assert(upto.drop_last() =~= path@.take(index as int));
        assert(upto.last() == path@[index as int]);
        index += 1;
        if characters[index - 1] == '\\' || characters[index - 1] == '/' {
            start = index;
            assert(path@.subrange(start as int, index as int) =~= Seq::empty());
        } else {
            assert(path@.subrange(start as int, index as int) =~= path@.subrange(
                start as int,
                index - 1,
            ).push(upto.last()));
        }
    }
    assert(path@.take(path@.len() as int) =~= path@);
    text_between(&characters, start, characters.len())
}

/// Whether a path is that of an executable that can be elevated. `is_file` tells whether a file is
/// there; a path that ends in a separator never names one.
pub open spec fn is_packaged_executable(path: Seq<char>, is_file: bool) -> bool {
    &&& windows_paths::is_absolute_text(path)
    &&& is_file
    &&& paths::extension(last_name(path)) matches Some(extension) && text::lower_text(extension)
        == text::lower_text("exe"@)
}

/// Why the running executable cannot be the worker.
pub open spec fn current_fault(executable: Result<String, String>, is_file: bool) -> Option<
    WorkerRunnerErrorView,
> {
    match executable {
        Err(cause) => launch::runner_io(cause@),
        Ok(path) => if is_packaged_executable(path@, is_file) {
            None
        } else {
            launch::runner_io("raw-device writing requires the packaged SnapDog Windows executable"@)
        },
    }
}

impl WindowsWorkerRunner {
    /// Use the currently running executable for elevated worker re-entry.
    pub fn current(executable: Result<String, String>, is_file: bool) -> (result: Result<
        WindowsWorkerRunner,
        WorkerRunnerError,
    >)
        ensures
            pipeline::is_verdict(result, current_fault(executable, is_file)),
            result matches Ok(runner) ==> executable == Ok::<String, String>(runner.executable),
    {
        let executable = match executable {
            Err(cause) => {
                return Err(WorkerRunnerError::Io(cause));
            },
            Ok(path) => path,
        };
        let name = name_of(executable.as_str());
        let has_extension = match name_extension(name.as_str()) {
            Some(extension) => same_ignoring_case(extension.as_str(), "exe"),
            None => false,
        };
        if !windows_paths::is_absolute(executable.as_str()) || !is_file || !has_extension {
            return Err(
                WorkerRunnerError::Io(
                    "raw-device writing requires the packaged SnapDog Windows executable".to_owned(),
                ),
            );
        }
        Ok(WindowsWorkerRunner { executable })
    }

    /// Use an explicit executable path, primarily for packaged integration tests.
    pub fn with_executable(executable: String) -> (runner: WindowsWorkerRunner)
        ensures
            runner.executable == executable,
    {
        WindowsWorkerRunner { executable }
    }

    /// Begin to run a worker.
    pub fn run(&self, launch: WorkerLaunch) -> (result: (ElevatedRun, ElevatedAction))
        ensures
            (result.0@, result.1@) == elevated_start(self.executable@, launch@),
            result.0@.well_formed(),
    {
        (
            ElevatedRun {
                executable: self.executable.clone(),
                launch,
                stage: ElevatedStage::OpeningTail,
                job_size: 0,
                job_sha256: String::new(),
                raw_path: String::new(),
                raw_size: 0,
            },
            ElevatedAction::OpenTail,
        )
    }
}

// ---------------------------------------------------------------------------------------------
// The launch
// ---------------------------------------------------------------------------------------------

/// The files that stay pinned during the hand-off.
#[derive(Clone, Copy, Debug, PartialEq, Eq, Structural)]
pub enum PinnedFile {
    Executable,
    Job,
    RawImage,
}

/// What an elevated launch waits for.
pub enum ElevatedStage {
    /// The progress file is to be opened.
    OpeningTail,
    /// What a look at the path of a file shows.
    Looking(PinnedFile),
    /// The file is to be opened, with others denied to write or delete it.
    Opening(PinnedFile),
    /// The size of the job file.
    Measuring,
    /// The job file is to be read.
    Reading,
    /// The job is to be decoded.
    Decoding,
    /// The executable is to be launched elevated.
    Launching,
    /// The process is being watched.
    Watching(Monitor),
    /// The launch is over.
    Closed,
}

/// What an [`ElevatedStage`] holds.
pub enum ElevatedStageView {
    OpeningTail,
    Looking(PinnedFile),
    Opening(PinnedFile),
    Measuring,
    Reading,
    Decoding,
    Launching,
    Watching(MonitorState),
    Closed,
}

impl View for ElevatedStage {
    type V = ElevatedStageView;

    open spec fn view(&self) -> ElevatedStageView {
        match *self {
            ElevatedStage::OpeningTail => ElevatedStageView::OpeningTail,
            ElevatedStage::Looking(file) => ElevatedStageView::Looking(file),
            ElevatedStage::Opening(file) => ElevatedStageView::Opening(file),
            ElevatedStage::Measuring => ElevatedStageView::Measuring,
            ElevatedStage::Reading => ElevatedStageView::Reading,
            ElevatedStage::Decoding => ElevatedStageView::Decoding,
            ElevatedStage::Launching => ElevatedStageView::Launching,
            ElevatedStage::Watching(monitor) => ElevatedStageView::Watching(monitor@),
            ElevatedStage::Closed => ElevatedStageView::Closed,
        }
    }
}

/// What an access came to.
#[derive(Debug)]
pub enum ElevatedEvent {
    /// The access succeeded.
    Done,
    /// The access failed.
    Failed(String),
    /// What a look at the path shows.
    Looked(WindowsFileFacts),
    /// The file was opened: what it is, and whether the path still leads to it.
    Opened { facts: WindowsFileFacts, same: bool },
    /// The size of the opened job file.
    Measured(u64),
    /// What was read of the job file.
    Read(Vec<u8>),
    /// The raw image that the job names.
    Decoded { raw_path: String, raw_size: u64 },
    /// What watching the process came to.
    Watch(MonitorEvent),
}

/// What to do next.
#[derive(Debug)]
pub enum ElevatedAction {
    /// Open the progress file for reading.
    OpenTail,
    /// Look at this path, without following a final link.
    Look(String),
    /// Open this path with [`FILE_SHARE_READ`], look at the file, and compare it with the path.
    Open(String),
    /// Tell the size of the opened job file.
    Measure,
    /// Read the opened job file, one byte more than its largest size at most.
    Read,
    /// Decode the job that was read.
    Decode,
    /// Launch the executable elevated, with these arguments.
    Launch(Vec<String>),
    /// Do this to watch the process. A return or a failure ends the launch.
    Watch(MonitorAction),
    /// Report the error.
    Fail(WorkerRunnerError),
}

/// What an [`ElevatedAction`] holds.
pub enum ElevatedActionView {
    OpenTail,
    Look(Seq<char>),
    Open(Seq<char>),
    Measure,
    Read,
    Decode,
    Launch(Seq<Seq<char>>),
    Watch(MonitorActionView),
    Fail(WorkerRunnerErrorView),
}

impl View for ElevatedAction {
    type V = ElevatedActionView;

    open spec fn view(&self) -> ElevatedActionView {
        match *self {
            ElevatedAction::OpenTail => ElevatedActionView::OpenTail,
            ElevatedAction::Look(path) => ElevatedActionView::Look(path@),
            ElevatedAction::Open(path) => ElevatedActionView::Open(path@),
            ElevatedAction::Measure => ElevatedActionView::Measure,
            ElevatedAction::Read => ElevatedActionView::Read,
            ElevatedAction::Decode => ElevatedActionView::Decode,
            ElevatedAction::Launch(arguments) => ElevatedActionView::Launch(
                text::texts(arguments@),
            ),
            ElevatedAction::Watch(action) => ElevatedActionView::Watch(action@),
            ElevatedAction::Fail(error) => ElevatedActionView::Fail(error@),
        }
    }
}

/// The state of an elevated launch.
pub struct ElevatedState {
    pub executable: Seq<char>,
    pub launch: WorkerLaunchView,
    pub stage: ElevatedStageView,
    pub job_size: u64,
    pub job_sha256: Seq<char>,
    pub raw_path: Seq<char>,
    pub raw_size: u64,
}

impl ElevatedState {
    /// Whether the event answers what the launch waits for.
    pub open spec fn expects(self, event: ElevatedEvent) -> bool {
        match self.stage {
            ElevatedStageView::OpeningTail | ElevatedStageView::Launching => event is Done
                || event is Failed,
            ElevatedStageView::Looking(_) => event is Looked || event is Failed,
            ElevatedStageView::Opening(_) => event is Opened || event is Failed,
            ElevatedStageView::Measuring => event is Measured || event is Failed,
            ElevatedStageView::Reading => event is Read || event is Failed,
            ElevatedStageView::Decoding => event is Decoded || event is Failed,
            ElevatedStageView::Watching(monitor) => event matches ElevatedEvent::Watch(inner)
                && monitor.expects(inner) && monitor.well_formed(),
            ElevatedStageView::Closed => false,
        }
    }

    /// What a launch keeps.
    pub open spec fn well_formed(self) -> bool {
        self.stage matches ElevatedStageView::Watching(monitor) ==> monitor.well_formed()
    }

    /// The launch goes on in another stage.
    pub open spec fn go(self, stage: ElevatedStageView, action: ElevatedActionView) -> (
        ElevatedState,
        ElevatedActionView,
    ) {
        (ElevatedState { stage, ..self }, action)
    }

    /// The launch gives up.
    pub open spec fn fail(self, error: WorkerRunnerErrorView) -> (
        ElevatedState,
        ElevatedActionView,
    ) {
        self.go(ElevatedStageView::Closed, ElevatedActionView::Fail(error))
    }

    /// The path of a file that is to be pinned.
    pub open spec fn path_of(self, file: PinnedFile) -> Seq<char> {
        match file {
            PinnedFile::Executable => self.executable,
            PinnedFile::Job => self.launch.job_path,
            PinnedFile::RawImage => self.raw_path,
        }
    }

    /// The size that a file has to have, where that is known.
    pub open spec fn size_of(self, file: PinnedFile) -> Option<u64> {
        if file == PinnedFile::RawImage {
            Some(self.raw_size)
        } else {
            None
        }
    }

    /// A file is to be pinned.
    pub open spec fn pin(self, file: PinnedFile) -> (ElevatedState, ElevatedActionView) {
        self.go(
            ElevatedStageView::Looking(file),
            ElevatedActionView::Look(self.path_of(file)),
        )
    }

    /// A file was pinned.
    pub open spec fn pinned(self, file: PinnedFile) -> (ElevatedState, ElevatedActionView) {
        match file {
            PinnedFile::Executable => self.pin(PinnedFile::Job),
            PinnedFile::Job => self.go(ElevatedStageView::Measuring, ElevatedActionView::Measure),
            PinnedFile::RawImage => self.go(
                ElevatedStageView::Launching,
                ElevatedActionView::Launch(
                    command_line::argument_texts(
                        Platform::Windows,
                        self.launch.job_path,
                        self.job_sha256,
                    ),
                ),
            ),
        }
    }

    /// What follows on an event.
    pub open spec fn step(self, event: ElevatedEvent, cancelled: bool) -> (
        ElevatedState,
        ElevatedActionView,
    ) {
        match (self.stage, event) {
            (_, ElevatedEvent::Failed(cause)) => self.fail(WorkerRunnerErrorView::Io(cause@)),
            (ElevatedStageView::OpeningTail, _) => self.pin(PinnedFile::Executable),
            (ElevatedStageView::Looking(file), ElevatedEvent::Looked(facts)) => {
                if launch::is_pinnable(facts, self.size_of(file)) {
                    self.go(
                        ElevatedStageView::Opening(file),
                        ElevatedActionView::Open(self.path_of(file)),
                    )
                } else {
                    self.fail(WorkerRunnerErrorView::Io("refusing to pin an unsafe launch file"@))
                }
            },
            (ElevatedStageView::Opening(file), ElevatedEvent::Opened { facts, same }) => {
                if same && launch::is_pinnable(facts, self.size_of(file)) {
                    self.pinned(file)
                } else {
                    self.fail(
                        WorkerRunnerErrorView::Io("launch file changed while it was pinned"@),
                    )
                }
            },
            (ElevatedStageView::Measuring, ElevatedEvent::Measured(size)) => {
                if 0 < size <= MAX_WORKER_JOB_SIZE {
                    (ElevatedState { job_size: size, ..self }).go(
                        ElevatedStageView::Reading,
                        ElevatedActionView::Read,
                    )
                } else {
                    self.fail(WorkerRunnerErrorView::Io("worker job has an unsafe size"@))
                }
            },
            (ElevatedStageView::Reading, ElevatedEvent::Read(encoded)) => {
                if encoded@.len() == self.job_size {
                    (ElevatedState { job_sha256: digest::sha256_text(encoded@), ..self }).go(
                        ElevatedStageView::Decoding,
                        ElevatedActionView::Decode,
                    )
                } else {
                    self.fail(
                        WorkerRunnerErrorView::Io("worker job changed while it was pinned"@),
                    )
                }
            },
            (ElevatedStageView::Decoding, ElevatedEvent::Decoded { raw_path, raw_size }) => {
                (ElevatedState { raw_path: raw_path@, raw_size, ..self }).pin(PinnedFile::RawImage)
            },
            (ElevatedStageView::Watching(monitor), ElevatedEvent::Watch(inner)) => {
                let (after, action) = monitor.step(inner, cancelled);
                self.go(
                    if action.task is Return || action.task is Fail {
                        ElevatedStageView::Closed
                    } else {
                        ElevatedStageView::Watching(after)
                    },
                    ElevatedActionView::Watch(action),
                )
            },
            _ => {
                let (monitor, action) = monitor::monitor_start(Platform::Windows, cancelled);
                self.go(ElevatedStageView::Watching(monitor), ElevatedActionView::Watch(action))
            },
        }
    }
}

/// How an elevated launch begins.
pub open spec fn elevated_start(executable: Seq<char>, launch: WorkerLaunchView) -> (
    ElevatedState,
    ElevatedActionView,
) {
    (
        ElevatedState {
            executable,
            launch,
            stage: ElevatedStageView::OpeningTail,
            job_size: 0,
            job_sha256: Seq::empty(),
            raw_path: Seq::empty(),
            raw_size: 0,
        },
        ElevatedActionView::OpenTail,
    )
}

/// One elevated launch of a worker process.
pub struct ElevatedRun {
    executable: String,
    launch: WorkerLaunch,
    stage: ElevatedStage,
    job_size: u64,
    job_sha256: String,
    raw_path: String,
    raw_size: u64,
}

impl View for ElevatedRun {
    type V = ElevatedState;

    closed spec fn view(&self) -> ElevatedState {
        ElevatedState {
            executable: self.executable@,
            launch: self.launch@,
            stage: self.stage@,
            job_size: self.job_size,
            job_sha256: self.job_sha256@,
            raw_path: self.raw_path@,
            raw_size: self.raw_size,
        }
    }
}

impl ElevatedRun {
    fn fail(&mut self, error: WorkerRunnerError) -> (action: ElevatedAction)
        ensures
            (final(self)@, action@) == old(self)@.fail(error@),
    {
        self.stage = ElevatedStage::Closed;
        ElevatedAction::Fail(error)
    }

    fn path_of(&self, file: PinnedFile) -> (path: String)
        ensures
            path@ == self@.path_of(file),
    {
        match file {
            PinnedFile::Executable => self.executable.clone(),
            PinnedFile::Job => self.launch.job_path.clone(),
            PinnedFile::RawImage => self.raw_path.clone(),
        }
    }

    fn size_of(&self, file: PinnedFile) -> (size: Option<u64>)
        ensures
            size == self@.size_of(file),
    {
        if file == PinnedFile::RawImage {
            Some(self.raw_size)
        } else {
            None
        }
    }

    fn pin(&mut self, file: PinnedFile) -> (action: ElevatedAction)
        ensures
            (final(self)@, action@) == old(self)@.pin(file),
    {
        self.stage = ElevatedStage::Looking(file);
        ElevatedAction::Look(self.path_of(file))
    }

    fn pinned(&mut self, file: PinnedFile) -> (action: ElevatedAction)
        ensures
            (final(self)@, action@) == old(self)@.pinned(file),
    {
        match file {
            PinnedFile::Executable => self.pin(PinnedFile::Job),
            PinnedFile::Job => {
                self.stage = ElevatedStage::Measuring;
                ElevatedAction::Measure
            },
            PinnedFile::RawImage => {
                self.stage = ElevatedStage::Launching;
                ElevatedAction::Launch(
                    worker_arguments(
                        Platform::Windows,
                        self.launch.job_path.as_str(),
                        self.job_sha256.as_str(),
                    ),
                )
            },
        }
    }

    /// What follows on an event. `cancelled` tells whether the user has cancelled by then.
    pub fn step(&mut self, event: ElevatedEvent, cancelled: bool) -> (action: ElevatedAction)
        requires
            old(self)@.well_formed(),
            old(self)@.expects(event),
        ensures
            (final(self)@, action@) == old(self)@.step(event, cancelled),
            final(self)@.well_formed(),
    {
        let mut stage = ElevatedStage::Closed;
        core::mem::swap(&mut stage, &mut self.stage);
        match (stage, event) {
            (_, ElevatedEvent::Failed(cause)) => self.fail(WorkerRunnerError::Io(cause)),
            (ElevatedStage::OpeningTail, _) => self.pin(PinnedFile::Executable),
            (ElevatedStage::Looking(file), ElevatedEvent::Looked(facts)) => {
                match validate_unpinned(&facts, self.size_of(file)) {
                    Err(error) => self.fail(error),
                    Ok(()) => {
                        self.stage = ElevatedStage::Opening(file);
                        ElevatedAction::Open(self.path_of(file))
                    },
                }
            },
            (ElevatedStage::Opening(file), ElevatedEvent::Opened { facts, same }) => {
                match validate_pinned(&facts, same, self.size_of(file)) {
                    Err(error) => self.fail(error),
                    Ok(()) => self.pinned(file),
                }
            },
            (ElevatedStage::Measuring, ElevatedEvent::Measured(size)) => {
                match validate_job_size(size) {
                    Err(error) => self.fail(error),
                    Ok(()) => {
                        self.job_size = size;
                        self.stage = ElevatedStage::Reading;
                        ElevatedAction::Read
                    },
                }
            },
            (ElevatedStage::Reading, ElevatedEvent::Read(encoded)) => {
                match job_digest(self.job_size, &encoded) {
                    Err(error) => self.fail(error),
                    Ok(sha256) => {
                        self.job_sha256 = sha256;
                        self.stage = ElevatedStage::Decoding;
                        ElevatedAction::Decode
                    },
                }
            },
            (ElevatedStage::Decoding, ElevatedEvent::Decoded { raw_path, raw_size }) => {
                self.raw_path = raw_path;
                self.raw_size = raw_size;
                self.pin(PinnedFile::RawImage)
            },
            (ElevatedStage::Watching(mut monitor), ElevatedEvent::Watch(inner)) => {
                let action = monitor.step(inner, cancelled);
                if !matches!(action.task, MonitorTask::Return | MonitorTask::Fail(_)) {
                    self.stage = ElevatedStage::Watching(monitor);
                }
                ElevatedAction::Watch(action)
            },
            _ => {
                let (monitor, action) = Monitor::start(Platform::Windows, cancelled);
                self.stage = ElevatedStage::Watching(monitor);
                ElevatedAction::Watch(action)
            },
        }
    }
}

// ---------------------------------------------------------------------------------------------
// Whole launches
// ---------------------------------------------------------------------------------------------

/// An event, and whether the user has cancelled by then.
pub struct ElevatedInput {
    pub event: ElevatedEvent,
    pub cancelled: bool,
}

/// The state after some events.
pub open spec fn elevated_after(start: ElevatedState, inputs: Seq<ElevatedInput>) -> ElevatedState
    decreases inputs.len(),
{
    if inputs.len() == 0 {
        start
    } else {
        elevated_after(start, inputs.drop_last()).step(
            inputs.last().event,
            inputs.last().cancelled,
        ).0
    }
}

/// Whether each event answers what the launch waited for.
pub open spec fn elevated_accepts(start: ElevatedState, inputs: Seq<ElevatedInput>) -> bool
    decreases inputs.len(),
{
    inputs.len() == 0 || (elevated_accepts(start, inputs.drop_last()) && elevated_after(
        start,
        inputs.drop_last(),
    ).expects(inputs.last().event))
}

/// Whether these bytes were read of the job file.
pub open spec fn was_read(inputs: Seq<ElevatedInput>, encoded: Seq<u8>) -> bool {
    exists|i: int|
        0 <= i < inputs.len() && (#[trigger] inputs[i].event matches ElevatedEvent::Read(bytes)
            && bytes@ == encoded)
}

/// Whether the digest of the job file is known.
spec fn knows_digest(stage: ElevatedStageView) -> bool {
    ||| stage is Decoding
    ||| stage is Launching
    ||| stage == ElevatedStageView::Looking(PinnedFile::RawImage)
    ||| stage == ElevatedStageView::Opening(PinnedFile::RawImage)
}

spec fn elevated_keeps(start: ElevatedState, inputs: Seq<ElevatedInput>) -> bool {
    let state = elevated_after(start, inputs);
    &&& state.launch == start.launch
    &&& knows_digest(state.stage) ==> exists|encoded: Seq<u8>| #[trigger]
        was_read(inputs, encoded) && state.job_sha256 == digest::sha256_text(encoded)
}

proof fn elevated_is_kept(start: ElevatedState, inputs: Seq<ElevatedInput>)
    requires
        start.stage is OpeningTail,
        elevated_accepts(start, inputs),
    ensures
        elevated_keeps(start, inputs),
    decreases inputs.len(),
{
    if inputs.len() > 0 {
        let before = inputs.drop_last();
        elevated_is_kept(start, before);
        let state = elevated_after(start, before);
        let after = elevated_after(start, inputs);
        if knows_digest(after.stage) {
            match inputs.last().event {
                ElevatedEvent::Read(encoded) => {
                    assert(inputs[inputs.len() - 1].event is Read);
                    assert(was_read(inputs, encoded@));
                },
                _ => {
                    let encoded = choose|encoded: Seq<u8>| #[trigger]
                        was_read(before, encoded) && state.job_sha256 == digest::sha256_text(
                            encoded,
                        );
                    let i = choose|i: int|
                        0 <= i < before.len()
                            && (#[trigger] before[i].event matches ElevatedEvent::Read(bytes)
                            && bytes@ == encoded);
                    assert(inputs[i].event == before[i].event);
                    assert(was_read(inputs, encoded));
                },
            }
        }
    }
}

/// The executable is launched elevated only with the digest of what was read of its pinned job
/// file: arguments that the worker accepts.
pub proof fn elevated_worker_gets_the_digest_of_its_job(
    executable: Seq<char>,
    launch: WorkerLaunchView,
    inputs: Seq<ElevatedInput>,
    event: ElevatedEvent,
    cancelled: bool,
)
    requires
        ({
            let start = elevated_start(executable, launch).0;
            &&& elevated_accepts(start, inputs)
            &&& elevated_after(start, inputs).expects(event)
            &&& elevated_after(start, inputs).step(event, cancelled).1 is Launch
        }),
    ensures
        ({
            let start = elevated_start(executable, launch).0;
            exists|encoded: Seq<u8>| #[trigger]
                was_read(inputs, encoded) && digest::is_sha256_text(digest::sha256_text(encoded))
                    && elevated_after(start, inputs).step(event, cancelled).1
                    == ElevatedActionView::Launch(
                    command_line::argument_texts(
                        Platform::Windows,
                        launch.job_path,
                        digest::sha256_text(encoded),
                    ),
                )
        }),
{
    let start = elevated_start(executable, launch).0;
    elevated_is_kept(start, inputs);
    let state = elevated_after(start, inputs);
    let encoded = choose|encoded: Seq<u8>| #[trigger]
        was_read(inputs, encoded) && state.job_sha256 == digest::sha256_text(encoded);
    digest::digest_text_is_a_digest(encoded);
}

/// An executable can be elevated exactly where its path is absolute, a file is there, and the name
/// ends in `exe` behind a dot, without regard to case; any failure is one of the runner.
pub proof fn packaged_executable_can_be_elevated(executable: Result<String, String>, is_file: bool)
    ensures
        current_fault(executable, is_file) is None <==> (executable matches Ok(path)
            && windows_paths::is_absolute_text(path@) && is_file && paths::extension(
            last_name(path@),
        ) is Some && text::lower_text(paths::extension(last_name(path@))->0) == text::lower_text(
            "exe"@,
        )),
        current_fault(executable, is_file) matches Some(fault) ==> fault is Io,
{
}

/// The name of a path is what stands behind its last separator: it holds none, and the rest of the
/// path is empty or ends in one.
pub proof fn name_stands_behind_the_last_separator(path: Seq<char>)
    ensures
        ({
            let name = last_name(path);
            let start = path.len() - name.len();
            &&& start >= 0
            &&& path.subrange(start, path.len() as int) == name
            &&& start > 0 ==> windows_paths::is_separator(path[start - 1])
            &&& forall|i: int| 0 <= i < name.len() ==> !windows_paths::is_separator(#[trigger] name[i])
        }),
    decreases path.len(),
{
    let name = last_name(path);
    if path.len() == 0 || windows_paths::is_separator(path.last()) {
        assert(path.subrange(path.len() as int, path.len() as int) =~= name);
    } else {
        let front = path.drop_last();
        name_stands_behind_the_last_separator(front);
        let before = last_name(front);
        let start = path.len() - name.len();
        assert(path.subrange(start, path.len() as int) =~= front.subrange(
            start,
            front.len() as int,
        ).push(path.last()));
        assert forall|i: int| 0 <= i < name.len() implies !windows_paths::is_separator(
            #[trigger] name[i],
        ) by {
            if i < before.len() {
                assert(name[i] == before[i]);
            }
        }
    }
}

/// Pinning a file on Windows is untroubled where the file is plain at its path and when it is open,
/// has the size that it must have, and the path still leads to it. The executable is pinned first
/// and the job file next; then the job is measured.
pub proof fn plain_files_are_pinned_in_order(
    state: ElevatedState,
    file: PinnedFile,
    facts: WindowsFileFacts,
    opened: WindowsFileFacts,
    cancelled: bool,
)
    requires
        state.stage == ElevatedStageView::Looking(file),
        launch::is_pinnable(
            facts,
            if file is RawImage {
                Some(state.raw_size)
            } else {
                None
            },
        ),
        launch::is_pinnable(
            opened,
            if file is RawImage {
                Some(state.raw_size)
            } else {
                None
            },
        ),
    ensures
        ({
            let path = match file {
                PinnedFile::Executable => state.executable,
                PinnedFile::Job => state.launch.job_path,
                PinnedFile::RawImage => state.raw_path,
            };
            let (opening, opens) = state.step(ElevatedEvent::Looked(facts), cancelled);
            let (next, action) = opening.step(
                ElevatedEvent::Opened { facts: opened, same: true },
                cancelled,
            );
            &&& opens == ElevatedActionView::Open(path)
            &&& file is Executable ==> action == ElevatedActionView::Look(state.launch.job_path)
                && next.stage == ElevatedStageView::Looking(PinnedFile::Job)
            &&& file is Job ==> action is Measure
            &&& file is RawImage ==> action == ElevatedActionView::Launch(
                command_line::argument_texts(
                    Platform::Windows,
                    state.launch.job_path,
                    state.job_sha256,
                ),
            )
            &&& opening.step(ElevatedEvent::Opened { facts: opened, same: false }, cancelled).1
                is Fail
        }),
{
}

/// A job of a safe size that was read whole is decoded, and the raw image that it names is pinned
/// with the size that it names; once that is done the elevated worker is watched.
pub proof fn read_job_leads_to_its_image(
    state: ElevatedState,
    size: u64,
    encoded: Vec<u8>,
    raw_path: String,
    raw_size: u64,
)
    requires
        state.stage is Measuring,
        0 < size <= 65_536,
        encoded@.len() == size,
    ensures
        ({
            let (first, reads) = state.step(ElevatedEvent::Measured(size), false);
            let (second, decodes) = first.step(ElevatedEvent::Read(encoded), false);
            let (third, looks) = second.step(ElevatedEvent::Decoded { raw_path, raw_size }, false);
            &&& reads is Read
            &&& decodes is Decode
            &&& second.job_sha256 == digest::sha256_text(encoded@)
            &&& looks == ElevatedActionView::Look(raw_path@)
            &&& third.stage == ElevatedStageView::Looking(PinnedFile::RawImage)
            &&& third.raw_size == raw_size && third.raw_path == raw_path@
            &&& third.job_sha256 == second.job_sha256
        }),
{
}

/// An elevated launch begins with its progress file and then pins the executable; a launched worker
/// is watched, and the launch is over exactly when the watch is.
pub proof fn elevated_worker_is_watched(
    executable: Seq<char>,
    launch: WorkerLaunchView,
    state: ElevatedState,
    event: MonitorEvent,
    cancelled: bool,
)
    ensures
        ({
            let (start, opens) = elevated_start(executable, launch);
            let (next, looks) = start.step(ElevatedEvent::Done, cancelled);
            &&& opens is OpenTail
            &&& looks == ElevatedActionView::Look(executable)
            &&& next.stage == ElevatedStageView::Looking(PinnedFile::Executable)
        }),
        state.stage is Launching ==> {
            let (after, action) = state.step(ElevatedEvent::Done, false);
            &&& action matches ElevatedActionView::Watch(wanted) && wanted.task is Drain
            &&& after.stage matches ElevatedStageView::Watching(monitor) && monitor.platform
                is Windows && monitor.error is None && !monitor.cancel_sent
        },
        state.stage matches ElevatedStageView::Watching(monitor) ==> {
            let (watched, wanted) = monitor.step(event, cancelled);
            let (after, action) = state.step(ElevatedEvent::Watch(event), cancelled);
            &&& action == ElevatedActionView::Watch(wanted)
            &&& after.stage is Closed <==> wanted.task is Return || wanted.task is Fail
            &&& !(after.stage is Closed) ==> after.stage == ElevatedStageView::Watching(watched)
        },
{
}

/// An elevated launch fails only for a reason: an access failed, a file cannot be pinned or is not
/// the one at its path, or the job has not the size that it must have.
pub proof fn failed_elevation_has_its_reason(
    state: ElevatedState,
    event: ElevatedEvent,
    cancelled: bool,
)
    requires
        state.expects(event),
    ensures
        event matches ElevatedEvent::Failed(cause) ==> state.step(event, cancelled).1
            == ElevatedActionView::Fail(WorkerRunnerErrorView::Io(cause@)),
        state.step(event, cancelled).1 is Fail && !(event is Failed) ==> match event {
            ElevatedEvent::Looked(facts) => !launch::is_pinnable(
                facts,
                if state.stage == ElevatedStageView::Looking(PinnedFile::RawImage) {
                    Some(state.raw_size)
                } else {
                    None
                },
            ),
            ElevatedEvent::Opened { facts, same } => !same || !launch::is_pinnable(
                facts,
                if state.stage == ElevatedStageView::Opening(PinnedFile::RawImage) {
                    Some(state.raw_size)
                } else {
                    None
                },
            ),
            ElevatedEvent::Measured(size) => size == 0 || size > 65_536,
            ElevatedEvent::Read(encoded) => encoded@.len() != state.job_size,
            _ => false,
        },
{
}

/// Nothing that goes wrong is passed over before a worker is elevated: a file that cannot be pinned or
/// is another one when it is opened, a job of an unsafe size, and one that is not read whole end it.
pub proof fn trouble_ends_the_elevation(
    state: ElevatedState,
    event: ElevatedEvent,
    cancelled: bool,
)
    requires
        state.expects(event),
    ensures
        event matches ElevatedEvent::Looked(facts) ==> !launch::is_pinnable(facts, None)
            ==> state.step(event, cancelled).1 is Fail,
        event matches ElevatedEvent::Opened { facts, same } ==> !same || !launch::is_pinnable(
            facts,
            None,
        ) ==> state.step(event, cancelled).1 is Fail,
        state.stage == ElevatedStageView::Opening(PinnedFile::RawImage) && (event matches
            ElevatedEvent::Opened { facts, same } && !launch::is_pinnable(
            facts,
            Some(state.raw_size),
        )) ==> state.step(event, cancelled).1 is Fail,
        event matches ElevatedEvent::Measured(size) ==> size == 0 || size > MAX_WORKER_JOB_SIZE
            ==> state.step(event, cancelled).1 is Fail,
        event matches ElevatedEvent::Read(encoded) ==> encoded@.len() != state.job_size
            ==> state.step(event, cancelled).1 is Fail,
{
}

} // verus!
