//! Watching a worker process until it ends.

use vstd::prelude::*;
use vstd::string::*;
use vstd::utf8::*;

use crate::pipeline::{WorkerRunnerError, WorkerRunnerErrorView};
use crate::text;
use crate::text::{decimal_text, join2, join3, trim};
use crate::worker::Platform;

verus! {

/// The most bytes of error output that are taken from a worker.
pub const MAX_HELPER_STDERR: usize = 262_144;

/// Milliseconds between two looks at a worker.
pub const POLL_INTERVAL_MILLIS: u64 = 40;

// ---------------------------------------------------------------------------------------------
// Error output
// ---------------------------------------------------------------------------------------------

/// What `String::from_utf8_lossy` makes of some bytes.
pub uninterp spec fn lossy_text(bytes: Seq<u8>) -> Seq<char>;

/// `String::from_utf8_lossy` reads bytes as UTF-8, with a replacement character for what is none.
/// The text depends on the bytes alone, and is the encoded text where the bytes are UTF-8.
#[verifier::external_body]
pub(crate) fn read_lossy(bytes: &Vec<u8>) -> (result: String)
    ensures
        result@ == lossy_text(bytes@),
        forall|text: Seq<char>| bytes@ == #[trigger] encode_utf8(text) ==> result@ == text,
{
    String::from_utf8_lossy(bytes).into_owned()
}

/// What to say of a worker that said nothing.
pub open spec fn silent_message(platform: Platform) -> Seq<char> {
    match platform {
        Platform::MacOs => "the macOS authorization helper returned no error details"@,
        _ => "UDisks2 authorization was denied or the worker returned no details"@,
    }
}

/// What is reported of the error output of a worker, once it was read as text.
pub open spec fn reported_message(platform: Platform, output: Seq<char>) -> Seq<char> {
    if text::trimmed(output).len() == 0 {
        silent_message(platform)
    } else {
        text::trimmed(output)
    }
}

/// What is reported of the error output of a worker, once it was read as text.
pub fn report_output(platform: Platform, output: &str) -> (message: String)
    ensures
        message@ == reported_message(platform, output@),
{
    let message = trim(output);
    if message.as_str().is_empty() {
        match platform {
            Platform::MacOs => {
                "the macOS authorization helper returned no error details".to_owned()
            },
            _ => "UDisks2 authorization was denied or the worker returned no details".to_owned(),
        }
    } else {
        message
    }
}

/// What is reported of the error output of a worker.
pub fn stderr_message(platform: Platform, stderr: &Vec<u8>) -> (message: String)
    ensures
        message@ == reported_message(platform, lossy_text(stderr@)),
        forall|text: Seq<char>|
            stderr@ == #[trigger] encode_utf8(text) ==> message@ == reported_message(
                platform,
                text,
            ),
{
    let output = read_lossy(stderr);
    report_output(platform, output.as_str())
}

/// Why the error output of a helper is not taken.
pub open spec fn stderr_fault(bytes: Seq<u8>) -> Option<WorkerRunnerErrorView> {
    if bytes.len() > MAX_HELPER_STDERR {
        Some(WorkerRunnerErrorView::Io("authorization helper error output is too large"@))
    } else {
        None
    }
}

/// Take the error output of a worker, unless it is too large. One byte more than
/// [`MAX_HELPER_STDERR`] is enough of it.
pub fn accept_stderr(bytes: Vec<u8>) -> (result: Result<Vec<u8>, WorkerRunnerError>)
    ensures
        match result {
            Ok(accepted) => accepted == bytes && stderr_fault(bytes@) is None,
            Err(error) => stderr_fault(bytes@) == Some(error@),
        },
{
    if bytes.len() > MAX_HELPER_STDERR {
        Err(
            WorkerRunnerError::Io(
                "authorization helper error output is too large".to_owned(),
            ),
        )
    } else {
        Ok(bytes)
    }
}

// ---------------------------------------------------------------------------------------------
// The monitor
// ---------------------------------------------------------------------------------------------

/// How a worker process ended.
#[derive(Debug)]
pub enum ProcessExit {
    /// Whether it succeeded, its status in words, and its error output.
    Unix { success: bool, status: String, stderr: Vec<u8> },
    /// Its exit code.
    Windows(u32),
}

/// What a monitor waits for.
#[derive(Clone, Copy, Debug, PartialEq, Eq, Structural)]
pub enum MonitorPhase {
    /// Whether the launched files are still the same.
    CheckingIdentity,
    /// Progress is to be read.
    Draining,
    /// The worker is to be told to stop.
    Cancelling,
    /// A request for the authorized target is to be served, if there is one.
    Serving,
    /// Whether the worker has ended.
    Waiting,
    /// Some time is to pass.
    Sleeping,
    /// The rest of the progress is to be read.
    FinishingTail,
    /// The process is to be waited for.
    FinishingProcess,
    /// The worker has ended and is reported.
    Closed,
}

/// What an access came to.
#[derive(Debug)]
pub enum MonitorEvent {
    /// Whether the launched files are still the same.
    Identity(Result<(), WorkerRunnerError>),
    /// Progress was read, and whether any event was accepted so far.
    Drained { result: Result<(), WorkerRunnerError>, saw_event: bool },
    /// Whether the cancel marker could be created, and the process stopped where that was asked.
    CancelSent { marker: Result<(), String>, stop: Result<(), WorkerRunnerError> },
    /// A request for the authorized target was served, if there was one.
    Served(Result<(), WorkerRunnerError>),
    /// Whether the process has ended.
    Waited(Result<bool, WorkerRunnerError>),
    /// The time has passed.
    Woken,
    /// The rest of the progress was read.
    TailFinished(Result<(), WorkerRunnerError>),
    /// The process was waited for.
    ProcessFinished(Result<ProcessExit, WorkerRunnerError>),
}

/// What to do next.
#[derive(Debug)]
pub enum MonitorTask {
    /// Look whether the launched files are still the same.
    CheckIdentity,
    /// Read progress.
    Drain,
    /// Create the cancel marker, and stop the process where asked.
    SendCancel { stop: bool },
    /// Serve a request for the authorized target, if there is one.
    Serve,
    /// Look whether the process has ended.
    TryWait,
    /// Let [`POLL_INTERVAL_MILLIS`] pass.
    Sleep,
    /// Read the rest of the progress.
    FinishTail,
    /// Wait for the process and its error output.
    FinishProcess,
    /// The worker has succeeded.
    Return,
    /// The worker has failed.
    Fail(WorkerRunnerError),
}

/// What a [`MonitorTask`] holds.
pub enum MonitorTaskView {
    CheckIdentity,
    Drain,
    SendCancel { stop: bool },
    Serve,
    TryWait,
    Sleep,
    FinishTail,
    FinishProcess,
    Return,
    Fail(WorkerRunnerErrorView),
}

impl View for MonitorTask {
    type V = MonitorTaskView;

    open spec fn view(&self) -> MonitorTaskView {
        match *self {
            MonitorTask::CheckIdentity => MonitorTaskView::CheckIdentity,
            MonitorTask::Drain => MonitorTaskView::Drain,
            MonitorTask::SendCancel { stop } => MonitorTaskView::SendCancel { stop },
            MonitorTask::Serve => MonitorTaskView::Serve,
            MonitorTask::TryWait => MonitorTaskView::TryWait,
            MonitorTask::Sleep => MonitorTaskView::Sleep,
            MonitorTask::FinishTail => MonitorTaskView::FinishTail,
            MonitorTask::FinishProcess => MonitorTaskView::FinishProcess,
            MonitorTask::Return => MonitorTaskView::Return,
            MonitorTask::Fail(error) => MonitorTaskView::Fail(error@),
        }
    }
}

/// What to attempt before a task, whatever comes of it.
#[derive(Clone, Copy, Debug, PartialEq, Eq, Structural)]
pub struct Attempt {
    /// Create the cancel marker.
    pub touch: bool,
    /// Then stop the process.
    pub stop: bool,
}

/// What to do next.
#[derive(Debug)]
pub struct MonitorAction {
    pub attempt: Attempt,
    pub task: MonitorTask,
}

/// What a [`MonitorAction`] holds.
pub struct MonitorActionView {
    pub attempt: Attempt,
    pub task: MonitorTaskView,
}

impl View for MonitorAction {
    type V = MonitorActionView;

    open spec fn view(&self) -> MonitorActionView {
        MonitorActionView { attempt: self.attempt, task: self.task@ }
    }
}

/// The state of a monitor.
pub struct MonitorState {
    pub platform: Platform,
    pub phase: MonitorPhase,
    /// The first failure, which is reported once the process has ended.
    pub error: Option<WorkerRunnerErrorView>,
    /// Why it could not be told whether the process has ended.
    pub wait_error: Option<WorkerRunnerErrorView>,
    /// Whether any progress event was accepted.
    pub saw_event: bool,
    /// Whether the worker was told to stop.
    pub cancel_sent: bool,
}

/// Nothing to attempt.
pub open spec fn no_attempt() -> Attempt {
    Attempt { touch: false, stop: false }
}

/// The error of a result, where it is one.
pub open spec fn error_of<T>(result: Result<T, WorkerRunnerError>) -> Option<
    WorkerRunnerErrorView,
> {
    match result {
        Ok(_) => None,
        Err(error) => Some(error@),
    }
}

/// The first of two failures.
pub open spec fn first_error(
    first: Option<WorkerRunnerErrorView>,
    second: Option<WorkerRunnerErrorView>,
) -> Option<WorkerRunnerErrorView> {
    if first is Some {
        first
    } else {
        second
    }
}

/// Whether a process that ended in this way succeeded.
pub open spec fn succeeded(exit: ProcessExit) -> bool {
    match exit {
        ProcessExit::Unix { success, .. } => success,
        ProcessExit::Windows(code) => code == 0,
    }
}

/// The status of a process, in words.
pub open spec fn status_text(exit: ProcessExit) -> Seq<char> {
    match exit {
        ProcessExit::Unix { status, .. } => status@,
        ProcessExit::Windows(code) => "exit code "@ + text::decimal(code as nat),
    }
}

/// What is reported of a process that failed.
pub open spec fn failure_message(platform: Platform, exit: ProcessExit) -> Seq<char> {
    match exit {
        ProcessExit::Unix { stderr, .. } => reported_message(platform, lossy_text(stderr@)),
        ProcessExit::Windows(_) => "the native elevated worker reported a failure"@,
    }
}

/// What is reported of a process that could not be observed.
pub open spec fn unobserved_message(
    platform: Platform,
    exit: ProcessExit,
    error: WorkerRunnerErrorView,
) -> Seq<char> {
    match exit {
        ProcessExit::Unix { stderr, .. } => error.text() + "; "@ + reported_message(
            platform,
            lossy_text(stderr@),
        ),
        ProcessExit::Windows(_) => error.text(),
    }
}

impl MonitorState {
    /// Whether the event answers what the monitor waits for.
    pub open spec fn expects(self, event: MonitorEvent) -> bool {
        match self.phase {
            MonitorPhase::CheckingIdentity => event is Identity,
            MonitorPhase::Draining => event is Drained,
            MonitorPhase::Cancelling => event is CancelSent,
            MonitorPhase::Serving => event is Served,
            MonitorPhase::Waiting => event is Waited,
            MonitorPhase::Sleeping => event is Woken,
            MonitorPhase::FinishingTail => event is TailFinished,
            MonitorPhase::FinishingProcess => event is ProcessFinished,
            MonitorPhase::Closed => false,
        }
    }

    /// Whether the process may still be stopped: an elevated one never is, and another only as
    /// long as it may be waiting for an authorization.
    pub open spec fn may_stop(self) -> bool {
        self.platform != Platform::Windows && !self.saw_event
    }

    /// The monitor goes on with a task.
    pub open spec fn go(self, phase: MonitorPhase, attempt: Attempt, task: MonitorTaskView) -> (
        MonitorState,
        MonitorActionView,
    ) {
        (MonitorState { phase, ..self }, MonitorActionView { attempt, task })
    }

    /// A round begins.
    pub open spec fn round(self, cancelled: bool) -> (MonitorState, MonitorActionView) {
        if self.error is None && !self.saw_event && self.platform != Platform::Windows {
            self.go(
                MonitorPhase::CheckingIdentity,
                no_attempt(),
                MonitorTaskView::CheckIdentity,
            )
        } else {
            self.drain(cancelled)
        }
    }

    /// Progress is read, unless something has failed.
    pub open spec fn drain(self, cancelled: bool) -> (MonitorState, MonitorActionView) {
        if self.error is None {
            self.go(MonitorPhase::Draining, no_attempt(), MonitorTaskView::Drain)
        } else {
            self.cancel(cancelled, no_attempt())
        }
    }

    /// A cancellation is passed on, once.
    pub open spec fn cancel(self, cancelled: bool, attempt: Attempt) -> (
        MonitorState,
        MonitorActionView,
    ) {
        if cancelled && !self.cancel_sent {
            self.go(
                MonitorPhase::Cancelling,
                attempt,
                MonitorTaskView::SendCancel { stop: self.may_stop() },
            )
        } else {
            self.serve(attempt)
        }
    }

    /// The authorized target is served on macOS, unless something has failed.
    pub open spec fn serve(self, attempt: Attempt) -> (MonitorState, MonitorActionView) {
        if self.platform == Platform::MacOs && self.error is None {
            self.go(MonitorPhase::Serving, attempt, MonitorTaskView::Serve)
        } else {
            self.go(MonitorPhase::Waiting, attempt, MonitorTaskView::TryWait)
        }
    }

    /// The process has ended and was waited for.
    pub open spec fn finish(self, exit: ProcessExit) -> (MonitorState, MonitorActionView) {
        self.go(
            MonitorPhase::Closed,
            no_attempt(),
            match self.wait_error {
                Some(error) => MonitorTaskView::Fail(
                    WorkerRunnerErrorView::Failed {
                        status: status_text(exit),
                        message: unobserved_message(self.platform, exit, error),
                    },
                ),
                None => match self.error {
                    Some(error) => MonitorTaskView::Fail(error),
                    None => if succeeded(exit) {
                        MonitorTaskView::Return
                    } else {
                        MonitorTaskView::Fail(
                            WorkerRunnerErrorView::Failed {
                                status: status_text(exit),
                                message: failure_message(self.platform, exit),
                            },
                        )
                    },
                },
            },
        )
    }

    /// What follows on an event.
    pub open spec fn step(self, event: MonitorEvent, cancelled: bool) -> (
        MonitorState,
        MonitorActionView,
    ) {
        match event {
            MonitorEvent::Identity(result) => match error_of(result) {
                None => self.drain(cancelled),
                Some(error) => (MonitorState { error: Some(error), ..self }).cancel(
                    cancelled,
                    Attempt { touch: true, stop: true },
                ),
            },
            MonitorEvent::Drained { result, saw_event } => {
                let after = MonitorState { saw_event, error: error_of(result), ..self };
                after.cancel(
                    cancelled,
                    if error_of(result) is Some {
                        Attempt { touch: true, stop: after.may_stop() }
                    } else {
                        no_attempt()
                    },
                )
            },
            MonitorEvent::CancelSent { marker, stop } => {
                let marked = match marker {
                    Ok(_) => self.error,
                    Err(cause) => first_error(
                        self.error,
                        Some(WorkerRunnerErrorView::Io(cause@)),
                    ),
                };
                let stopped = if self.may_stop() {
                    first_error(marked, error_of(stop))
                } else {
                    marked
                };
                (MonitorState { error: stopped, cancel_sent: true, ..self }).serve(no_attempt())
            },
            MonitorEvent::Served(result) => (MonitorState { error: error_of(result), ..self }).go(
                MonitorPhase::Waiting,
                if error_of(result) is Some {
                    Attempt { touch: true, stop: true }
                } else {
                    no_attempt()
                },
                MonitorTaskView::TryWait,
            ),
            MonitorEvent::Waited(result) => match result {
                Err(error) => (MonitorState { wait_error: Some(error@), ..self }).go(
                    MonitorPhase::FinishingProcess,
                    Attempt { touch: true, stop: false },
                    MonitorTaskView::FinishProcess,
                ),
                Ok(ended) => if !ended {
                    self.go(MonitorPhase::Sleeping, no_attempt(), MonitorTaskView::Sleep)
                } else if self.error is None {
                    self.go(
                        MonitorPhase::FinishingTail,
                        no_attempt(),
                        MonitorTaskView::FinishTail,
                    )
                } else {
                    self.go(
                        MonitorPhase::FinishingProcess,
                        no_attempt(),
                        MonitorTaskView::FinishProcess,
                    )
                },
            },
            MonitorEvent::Woken => self.round(cancelled),
            MonitorEvent::TailFinished(result) => (MonitorState {
                error: error_of(result),
                ..self
            }).go(
                MonitorPhase::FinishingProcess,
                no_attempt(),
                MonitorTaskView::FinishProcess,
            ),
            MonitorEvent::ProcessFinished(result) => match result {
                Err(error) => self.go(
                    MonitorPhase::Closed,
                    no_attempt(),
                    MonitorTaskView::Fail(error@),
                ),
                Ok(exit) => self.finish(exit),
            },
        }
    }

    /// What a monitor keeps: it reads, serves and finishes the progress only where nothing has
    /// failed, and only a process that is over is left unobserved.
    pub open spec fn well_formed(self) -> bool {
        &&& self.phase == MonitorPhase::CheckingIdentity ==> self.error is None && !self.saw_event
            && self.platform != Platform::Windows
        &&& self.phase == MonitorPhase::Draining || self.phase == MonitorPhase::Serving
            || self.phase == MonitorPhase::FinishingTail ==> self.error is None
        &&& self.phase == MonitorPhase::Cancelling ==> !self.cancel_sent
        &&& self.phase == MonitorPhase::Serving ==> self.platform == Platform::MacOs
        &&& self.wait_error is Some ==> self.phase == MonitorPhase::FinishingProcess || self.phase
            == MonitorPhase::Closed
    }
}

/// How a monitor begins.
pub open spec fn monitor_start(platform: Platform, cancelled: bool) -> (
    MonitorState,
    MonitorActionView,
) {
    (MonitorState {
        platform,
        phase: MonitorPhase::Sleeping,
        error: None,
        wait_error: None,
        saw_event: false,
        cancel_sent: false,
    }).round(cancelled)
}

fn nothing() -> (attempt: Attempt)
    ensures
        attempt == no_attempt(),
{
    Attempt { touch: false, stop: false }
}

fn describe_status(exit: &ProcessExit) -> (result: String)
    ensures
        result@ == status_text(*exit),
{
    match exit {
        ProcessExit::Unix { status, .. } => status.clone(),
        ProcessExit::Windows(code) => {
            let digits = decimal_text(*code as u64);
            join2("exit code ", digits.as_str())
        },
    }
}

/// Watches one worker process.
pub struct Monitor {
    platform: Platform,
    phase: MonitorPhase,
    error: Option<WorkerRunnerError>,
    wait_error: Option<WorkerRunnerError>,
    saw_event: bool,
    cancel_sent: bool,
}

/// The view of an optional error.
pub open spec fn optional_view(error: Option<WorkerRunnerError>) -> Option<WorkerRunnerErrorView> {
    match error {
        Some(error) => Some(error@),
        None => None,
    }
}

impl View for Monitor {
    type V = MonitorState;

    closed spec fn view(&self) -> MonitorState {
        MonitorState {
            platform: self.platform,
            phase: self.phase,
            error: optional_view(self.error),
            wait_error: optional_view(self.wait_error),
            saw_event: self.saw_event,
            cancel_sent: self.cancel_sent,
        }
    }
}

impl Monitor {
    /// Start watching.
    pub fn start(platform: Platform, cancelled: bool) -> (result: (Monitor, MonitorAction))
        ensures
            (result.0@, result.1@) == monitor_start(platform, cancelled),
            result.0@.well_formed(),
    {
        let mut monitor = Monitor {
            platform,
            phase: MonitorPhase::Sleeping,
            error: None,
            wait_error: None,
            saw_event: false,
            cancel_sent: false,
        };
        let action = monitor.round(cancelled);
        (monitor, action)
    }

    fn may_stop(&self) -> (result: bool)
        ensures
            result == self@.may_stop(),
    {
        self.platform != Platform::Windows && !self.saw_event
    }

    fn go(&mut self, phase: MonitorPhase, attempt: Attempt, task: MonitorTask) -> (action:
        MonitorAction)
        ensures
            (final(self)@, action@) == old(self)@.go(phase, attempt, task@),
    {
        self.phase = phase;
        MonitorAction { attempt, task }
    }

    fn round(&mut self, cancelled: bool) -> (action: MonitorAction)
        ensures
            (final(self)@, action@) == old(self)@.round(cancelled),
    {
        if self.error.is_none() && !self.saw_event && self.platform != Platform::Windows {
            self.go(MonitorPhase::CheckingIdentity, nothing(), MonitorTask::CheckIdentity)
        } else {
            self.drain(cancelled)
        }
    }

    fn drain(&mut self, cancelled: bool) -> (action: MonitorAction)
        ensures
            (final(self)@, action@) == old(self)@.drain(cancelled),
    {
        if self.error.is_none() {
            self.go(MonitorPhase::Draining, nothing(), MonitorTask::Drain)
        } else {
            self.cancel(cancelled, nothing())
        }
    }

    fn cancel(&mut self, cancelled: bool, attempt: Attempt) -> (action: MonitorAction)
        ensures
            (final(self)@, action@) == old(self)@.cancel(cancelled, attempt),
    {
        if cancelled && !self.cancel_sent {
            let stop = self.may_stop();
            self.go(MonitorPhase::Cancelling, attempt, MonitorTask::SendCancel { stop })
        } else {
            self.serve(attempt)
        }
    }

    fn serve(&mut self, attempt: Attempt) -> (action: MonitorAction)
        ensures
            (final(self)@, action@) == old(self)@.serve(attempt),
    {
        if self.platform == Platform::MacOs && self.error.is_none() {
            self.go(MonitorPhase::Serving, attempt, MonitorTask::Serve)
        } else {
            self.go(MonitorPhase::Waiting, attempt, MonitorTask::TryWait)
        }
    }

    fn finish(&mut self, exit: &ProcessExit) -> (action: MonitorAction)
        ensures
            (final(self)@, action@) == old(self)@.finish(*exit),
    {
        let task = match &self.wait_error {
            Some(error) => {
                let said = error.message();
                let message = match exit {
                    ProcessExit::Unix { stderr, .. } => {
                        let output = stderr_message(self.platform, stderr);
                        join3(said.as_str(), "; ", output.as_str())
                    },
                    ProcessExit::Windows(_) => said,
                };
                MonitorTask::Fail(
                    WorkerRunnerError::Failed { status: describe_status(exit), message },
                )
            },
            None => match &self.error {
                Some(error) => MonitorTask::Fail(error.copy()),
                None => {
                    let (success, message) = match exit {
                        ProcessExit::Unix { success, stderr, .. } => {
                            (*success, stderr_message(self.platform, stderr))
                        },
                        ProcessExit::Windows(code) => {
                            (*code == 0, "the native elevated worker reported a failure".to_owned())
                        },
                    };
                    if success {
                        MonitorTask::Return
                    } else {
                        MonitorTask::Fail(
                            WorkerRunnerError::Failed { status: describe_status(exit), message },
                        )
                    }
                },
            },
        };
        self.go(MonitorPhase::Closed, nothing(), task)
    }

    fn note_error(&mut self, error: WorkerRunnerError)
        ensures
            final(self)@ == (MonitorState {
                error: first_error(old(self)@.error, Some(error@)),
                ..old(self)@
            }),
    {
        if self.error.is_none() {
            self.error = Some(error);
        }
    }

    fn waited(&mut self, result: Result<bool, WorkerRunnerError>) -> (action: MonitorAction)
        ensures
            (final(self)@, action@) == old(self)@.step(MonitorEvent::Waited(result), false),
    {
        match result {
            Err(error) => {
                self.wait_error = Some(error);
                self.go(
                    MonitorPhase::FinishingProcess,
                    Attempt { touch: true, stop: false },
                    MonitorTask::FinishProcess,
                )
            },
            Ok(ended) => {
                if !ended {
                    self.go(MonitorPhase::Sleeping, nothing(), MonitorTask::Sleep)
                } else if self.error.is_none() {
                    self.go(MonitorPhase::FinishingTail, nothing(), MonitorTask::FinishTail)
                } else {
                    self.go(MonitorPhase::FinishingProcess, nothing(), MonitorTask::FinishProcess)
                }
            },
        }
    }

    /// What follows on an event. `cancelled` tells whether the user has cancelled by then.
    pub fn step(&mut self, event: MonitorEvent, cancelled: bool) -> (action: MonitorAction)
        requires
            old(self)@.well_formed(),
            old(self)@.expects(event),
        ensures
            (final(self)@, action@) == old(self)@.step(event, cancelled),
            final(self)@.well_formed(),
    {
        match event {
            MonitorEvent::Identity(result) => match result {
                Ok(()) => self.drain(cancelled),
                Err(error) => {
                    self.error = Some(error);
                    self.cancel(cancelled, Attempt { touch: true, stop: true })
                },
            },
            MonitorEvent::Drained { result, saw_event } => {
                self.saw_event = saw_event;
                match result {
                    Ok(()) => self.cancel(cancelled, nothing()),
                    Err(error) => {
                        self.error = Some(error);
                        let stop = self.may_stop();
                        self.cancel(cancelled, Attempt { touch: true, stop })
                    },
                }
            },
            MonitorEvent::CancelSent { marker, stop } => {
                match marker {
                    Ok(()) => {},
                    Err(cause) => {
                        self.note_error(WorkerRunnerError::Io(cause));
                    },
                }
                if self.may_stop() {
                    match stop {
                        Ok(()) => {},
                        Err(error) => {
                            self.note_error(error);
                        },
                    }
                }
                self.cancel_sent = true;
                self.serve(nothing())
            },
            MonitorEvent::Served(result) => match result {
                Ok(()) => self.go(MonitorPhase::Waiting, nothing(), MonitorTask::TryWait),
                Err(error) => {
                    self.error = Some(error);
                    self.go(
                        MonitorPhase::Waiting,
                        Attempt { touch: true, stop: true },
                        MonitorTask::TryWait,
                    )
                },
            },
            MonitorEvent::Waited(result) => self.waited(result),
            MonitorEvent::Woken => self.round(cancelled),
            MonitorEvent::TailFinished(result) => {
                match result {
                    Ok(()) => {},
                    Err(error) => {
                        self.error = Some(error);
                    },
                }
                self.go(MonitorPhase::FinishingProcess, nothing(), MonitorTask::FinishProcess)
            },
            MonitorEvent::ProcessFinished(result) => match result {
                Err(error) => self.go(MonitorPhase::Closed, nothing(), MonitorTask::Fail(error)),
                Ok(exit) => self.finish(&exit),
            },
        }
    }
}

// ---------------------------------------------------------------------------------------------
// Whole watches
// ---------------------------------------------------------------------------------------------

/// An event, and whether the user has cancelled by then.
pub struct MonitorInput {
    pub event: MonitorEvent,
    pub cancelled: bool,
}

/// The state after some events.
pub open spec fn monitor_after(start: MonitorState, inputs: Seq<MonitorInput>) -> MonitorState
    decreases inputs.len(),
{
    if inputs.len() == 0 {
        start
    } else {
        monitor_after(start, inputs.drop_last()).step(
            inputs.last().event,
            inputs.last().cancelled,
        ).0
    }
}

/// Whether each event answers what the monitor waited for.
pub open spec fn monitor_accepts(start: MonitorState, inputs: Seq<MonitorInput>) -> bool
    decreases inputs.len(),
{
    inputs.len() == 0 || (monitor_accepts(start, inputs.drop_last()) && monitor_after(
        start,
        inputs.drop_last(),
    ).expects(inputs.last().event))
}

/// The failure that an event reports, other than by the end of the process.
pub open spec fn event_error(event: MonitorEvent) -> bool {
    match event {
        MonitorEvent::Identity(result) => result is Err,
        MonitorEvent::Drained { result, .. } => result is Err,
        MonitorEvent::CancelSent { marker, .. } => marker is Err,
        MonitorEvent::Served(result) => result is Err,
        MonitorEvent::Waited(result) => result is Err,
        MonitorEvent::TailFinished(result) => result is Err,
        _ => false,
    }
}

/// A failure is remembered: the first one stays the first one.
pub proof fn first_failure_stays(state: MonitorState, event: MonitorEvent, cancelled: bool)
    requires
        state.well_formed(),
        state.expects(event),
    ensures
        state.step(event, cancelled).0.well_formed(),
        state.error is Some ==> state.step(event, cancelled).0.error == state.error,
        state.wait_error is Some ==> state.step(event, cancelled).0.wait_error == state.wait_error,
        event_error(event) ==> state.step(event, cancelled).0.error is Some || state.step(
            event,
            cancelled,
        ).0.wait_error is Some,
{
}

proof fn failures_are_kept(start: MonitorState, inputs: Seq<MonitorInput>)
    requires
        start.well_formed(),
        monitor_accepts(start, inputs),
    ensures
        monitor_after(start, inputs).well_formed(),
        monitor_after(start, inputs).platform == start.platform,
        (exists|i: int| 0 <= i < inputs.len() && #[trigger] event_error(inputs[i].event))
            ==> monitor_after(start, inputs).error is Some || monitor_after(
            start,
            inputs,
        ).wait_error is Some,
    decreases inputs.len(),
{
    if inputs.len() > 0 {
        let before = inputs.drop_last();
        failures_are_kept(start, before);
        let state = monitor_after(start, before);
        first_failure_stays(state, inputs.last().event, inputs.last().cancelled);
        if exists|i: int| 0 <= i < inputs.len() && #[trigger] event_error(inputs[i].event) {
            let i = choose|i: int|
                0 <= i < inputs.len() && #[trigger] event_error(inputs[i].event);
            if i < before.len() {
                assert(event_error(before[i].event));
            }
        }
    }
}

/// Success is reported only after a watch in which nothing failed, and only of a process that was
/// waited for and succeeded.
pub proof fn success_follows_a_watch_without_failure(
    start: MonitorState,
    inputs: Seq<MonitorInput>,
    event: MonitorEvent,
    cancelled: bool,
)
    requires
        start.well_formed(),
        monitor_accepts(start, inputs),
        monitor_after(start, inputs).expects(event),
        monitor_after(start, inputs).step(event, cancelled).1.task is Return,
    ensures
        event matches MonitorEvent::ProcessFinished(result) && result matches Ok(exit) && succeeded(
            exit,
        ),
        forall|i: int| 0 <= i < inputs.len() ==> !#[trigger] event_error(inputs[i].event),
{
    failures_are_kept(start, inputs);
}

/// A watch ends only when the process was waited for, whatever has happened before.
pub proof fn watch_ends_only_with_the_process(
    state: MonitorState,
    event: MonitorEvent,
    cancelled: bool,
)
    requires
        state.expects(event),
    ensures
        ({
            let (after, action) = state.step(event, cancelled);
            &&& (action.task is Return || action.task is Fail) == (event is ProcessFinished)
            &&& (after.phase == MonitorPhase::Closed) == (event is ProcessFinished)
        }),
{
}

/// A process that runs elevated is never stopped, and on Linux no worker is that has reported
/// anything.
pub proof fn process_is_stopped_only_before_it_reports(
    state: MonitorState,
    event: MonitorEvent,
    cancelled: bool,
)
    requires
        state.well_formed(),
        state.expects(event),
    ensures
        ({
            let (after, action) = state.step(event, cancelled);
            let stops = action.attempt.stop || action.task == (MonitorTaskView::SendCancel {
                stop: true,
            });
            &&& stops ==> state.platform != Platform::Windows
            &&& stops && state.platform == Platform::Linux ==> !after.saw_event
        }),
{
}

proof fn cancellation_is_kept(start: MonitorState, inputs: Seq<MonitorInput>)
    requires
        start.well_formed(),
        monitor_accepts(start, inputs),
    ensures
        monitor_after(start, inputs).well_formed(),
        (exists|i: int| 0 <= i < inputs.len() && #[trigger] inputs[i].event is CancelSent)
            ==> monitor_after(start, inputs).cancel_sent,
    decreases inputs.len(),
{
    if inputs.len() > 0 {
        let before = inputs.drop_last();
        cancellation_is_kept(start, before);
        let state = monitor_after(start, before);
        first_failure_stays(state, inputs.last().event, inputs.last().cancelled);
        if exists|i: int| 0 <= i < inputs.len() && #[trigger] inputs[i].event is CancelSent {
            let i = choose|i: int|
                0 <= i < inputs.len() && #[trigger] inputs[i].event is CancelSent;
            if i < before.len() {
                assert(before[i].event is CancelSent);
            }
        }
    }
}

/// The worker is told to stop once: after it was told, no further event answers such a request.
pub proof fn cancellation_is_sent_once(start: MonitorState, inputs: Seq<MonitorInput>, i: int, j: int)
    requires
        start.well_formed(),
        monitor_accepts(start, inputs),
        0 <= i < j < inputs.len(),
        inputs[i].event is CancelSent,
    ensures
        !(inputs[j].event is CancelSent),
    decreases inputs.len(),
{
    let before = inputs.drop_last();
    if j < before.len() {
        assert(before[i] == inputs[i] && before[j] == inputs[j]);
        cancellation_is_sent_once(start, before, i, j);
    } else {
        assert(before[i].event is CancelSent);
        cancellation_is_kept(start, before);
        assert(inputs.last() == inputs[j]);
    }
}

/// Whatever fails while the worker is watched leaves a cancel marker for it.
pub proof fn failed_watch_leaves_a_cancel_marker(
    state: MonitorState,
    event: MonitorEvent,
    cancelled: bool,
)
    requires
        state.expects(event),
        event_error(event),
        !(event is CancelSent),
        !(event is TailFinished),
    ensures
        state.step(event, cancelled).1.attempt.touch,
{
}

/// In a round in which nothing fails and nobody cancels, the files are compared until the worker has
/// reported anything, where it is not elevated; then progress is read, on macOS a request for the
/// target is served, and it is seen whether the process has ended. If it has not, some time passes
/// and the next round begins in the same state.
pub proof fn quiet_round_leads_to_the_next(state: MonitorState, saw_event: bool)
    requires
        state.phase == MonitorPhase::Sleeping,
        state.error is None && state.wait_error is None,
    ensures
        ({
            let (woken, first) = state.step(MonitorEvent::Woken, false);
            let compares = !(state.platform is Windows) && !state.saw_event;
            let (draining, second) = if compares {
                woken.step(MonitorEvent::Identity(Ok(())), false)
            } else {
                (woken, first)
            };
            let (drained, third) = draining.step(
                MonitorEvent::Drained { result: Ok(()), saw_event },
                false,
            );
            let (waiting, fourth) = if state.platform is MacOs {
                drained.step(MonitorEvent::Served(Ok(())), false)
            } else {
                (drained, third)
            };
            let (sleeping, fifth) = waiting.step(MonitorEvent::Waited(Ok(false)), false);
            &&& compares ==> first.task is CheckIdentity
            &&& second.task is Drain
            &&& state.platform is MacOs ==> third.task is Serve
            &&& fourth.task is TryWait
            &&& fifth.task is Sleep
            &&& !first.attempt.touch && !second.attempt.touch && !third.attempt.touch
                && !fourth.attempt.touch && !fifth.attempt.touch
            &&& !first.attempt.stop && !second.attempt.stop && !third.attempt.stop
                && !fourth.attempt.stop && !fifth.attempt.stop
            &&& sleeping == MonitorState { saw_event, ..state }
        }),
{
}

/// When the process has ended in a watch without failure, the rest of the progress is read and the
/// process is waited for; it has succeeded exactly where its exit says so, and else the failure
/// names its status and what it said.
pub proof fn ended_process_is_judged_by_its_exit(
    state: MonitorState,
    exit: ProcessExit,
    cancelled: bool,
)
    requires
        state.phase == MonitorPhase::Waiting,
        state.error is None && state.wait_error is None,
    ensures
        ({
            let (first, reads) = state.step(MonitorEvent::Waited(Ok(true)), cancelled);
            let (second, waits) = first.step(MonitorEvent::TailFinished(Ok(())), cancelled);
            let (third, last) = second.step(MonitorEvent::ProcessFinished(Ok(exit)), cancelled);
            let success = match exit {
                ProcessExit::Unix { success, .. } => success,
                ProcessExit::Windows(code) => code == 0,
            };
            &&& reads.task is FinishTail
            &&& waits.task is FinishProcess
            &&& success ==> last.task is Return
            &&& !success ==> {
                &&& last.task matches MonitorTaskView::Fail(error)
                &&& error matches WorkerRunnerErrorView::Failed { status, message }
                &&& status == (match exit {
                    ProcessExit::Unix { status, .. } => status@,
                    ProcessExit::Windows(code) => "exit code "@ + text::decimal(code as nat),
                })
                &&& exit matches ProcessExit::Unix { stderr, .. } ==> message == reported_message(
                    state.platform,
                    lossy_text(stderr@),
                )
            }
        }),
{
}

/// What a worker said is reported without the white space around it; one that said nothing else is
/// reported in words of the platform.
pub proof fn silent_worker_is_reported_in_words(platform: Platform, output: Seq<char>)
    ensures
        text::trimmed(output).len() > 0 ==> reported_message(platform, output) == text::trimmed(
            output,
        ),
        text::trimmed(output).len() == 0 ==> reported_message(platform, output) == silent_message(
            platform,
        ),
{
}

/// A cancellation is passed on as soon as the watch looks for one and the worker was not told yet; a
/// process that is not elevated and has not reported anything is stopped as well. Then the watch
/// goes on.
pub proof fn cancellation_is_passed_on(state: MonitorState, event: MonitorEvent)
    requires
        state.well_formed(),
        !state.cancel_sent,
        event is Drained,
        state.expects(event),
    ensures
        ({
            let (telling, action) = state.step(event, true);
            let (after, next) = telling.step(
                MonitorEvent::CancelSent { marker: Ok(()), stop: Ok(()) },
                true,
            );
            &&& action.task == MonitorTaskView::SendCancel {
                stop: !(state.platform is Windows) && !event->saw_event,
            }
            &&& after.cancel_sent
            &&& after.error == telling.error
            &&& next.task is Serve || next.task is TryWait
        }),
        !(state.step(event, false).1.task is SendCancel),
{
}

/// What a watch remembers is exactly the first failure that an event brought, and what it reports at
/// the end is that failure; one that could not observe the process reports this with the status.
pub proof fn first_failure_is_reported(
    state: MonitorState,
    event: MonitorEvent,
    cancelled: bool,
)
    requires
        state.well_formed(),
        state.expects(event),
    ensures
        ({
            let (after, action) = state.step(event, cancelled);
            let brought: Option<WorkerRunnerErrorView> = match event {
                MonitorEvent::Identity(result) => match result {
                    Err(error) => Some(error@),
                    Ok(_) => None,
                },
                MonitorEvent::Drained { result, .. } => match result {
                    Err(error) => Some(error@),
                    Ok(_) => None,
                },
                MonitorEvent::Served(result) => match result {
                    Err(error) => Some(error@),
                    Ok(_) => None,
                },
                MonitorEvent::TailFinished(result) => match result {
                    Err(error) => Some(error@),
                    Ok(_) => None,
                },
                MonitorEvent::CancelSent { marker, stop } => match marker {
                    Err(cause) => Some(WorkerRunnerErrorView::Io(cause@)),
                    Ok(_) => if !(state.platform is Windows) && !state.saw_event {
                        match stop {
                            Err(error) => Some(error@),
                            Ok(_) => None,
                        }
                    } else {
                        None
                    },
                },
                _ => None,
            };
            &&& after.error == (if state.error is Some {
                state.error
            } else {
                brought
            })
            &&& after.wait_error == (match event {
                MonitorEvent::Waited(Err(error)) => Some(error@),
                _ => state.wait_error,
            })
            &&& event matches MonitorEvent::Waited(Err(_)) ==> action.task is FinishProcess
            &&& event matches MonitorEvent::ProcessFinished(result) ==> match result {
                Err(error) => action.task == MonitorTaskView::Fail(error@),
                Ok(exit) => {
                    &&& state.wait_error is None && state.error is Some ==> action.task
                        == MonitorTaskView::Fail(state.error->0)
                    &&& state.wait_error is Some ==> action.task is Fail
                }
            }
        }),
{
}

/// Error output is taken up to its limit, and with it every beginning of it; beyond the limit it is
/// refused.
pub proof fn error_output_is_taken_up_to_its_limit(bytes: Seq<u8>, length: int)
    requires
        0 <= length <= bytes.len(),
    ensures
        bytes.len() == MAX_HELPER_STDERR ==> stderr_fault(bytes) is None,
        stderr_fault(bytes) is None ==> stderr_fault(bytes.subrange(0, length)) is None,
        bytes.len() == MAX_HELPER_STDERR + 1 ==> stderr_fault(bytes) is Some,
{
}

} // verus!
