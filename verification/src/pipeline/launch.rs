//! The files that a worker is launched with: that they are safe, what they hold, and that they
//! stay the same.

use vstd::prelude::*;
use vstd::string::*;

use crate::digest;
use crate::digest::{hex_encode, Hasher};
use crate::paths;
use crate::pipeline;
use crate::pipeline::{WorkerRunnerError, WorkerRunnerErrorView};
use crate::worker::windows_session::{WindowsFileFacts, FILE_ATTRIBUTE_REPARSE_POINT};
use crate::worker::Platform;

verus! {

broadcast use vstd::seq_lib::group_seq_properties;

/// The most bytes that a job file may have.
pub const MAX_WORKER_JOB_SIZE: u64 = 65_536;

/// The permission to execute a file, for anyone.
pub const ANY_EXECUTE: u32 = 0o111;

/// The permission to write a file, for its group or for others.
pub const FOREIGN_WRITE: u32 = 0o022;

/// What tells a file and its content from another.
#[derive(Clone, Copy, Debug, PartialEq, Eq, Structural)]
pub struct FileIdentity {
    pub device: u64,
    pub inode: u64,
    pub length: u64,
    pub modified_seconds: i64,
    pub modified_nanoseconds: i64,
    pub changed_seconds: i64,
    pub changed_nanoseconds: i64,
}

/// What is known of a launch file without following a final symbolic link.
#[derive(Clone, Copy, Debug, PartialEq, Eq, Structural)]
pub struct LaunchFacts {
    pub is_symlink: bool,
    pub is_file: bool,
    pub mode: u32,
    pub identity: FileIdentity,
}

/// A failure of the runner for a reason.
pub open spec fn runner_io(reason: Seq<char>) -> Option<WorkerRunnerErrorView> {
    Some(WorkerRunnerErrorView::Io(reason))
}

fn refuse<T>(reason: &str) -> (result: Result<T, WorkerRunnerError>)
    ensures
        result matches Err(error) && error@ == WorkerRunnerErrorView::Io(reason@),
{
    Err(WorkerRunnerError::Io(reason.to_owned()))
}

// ---------------------------------------------------------------------------------------------
// Safe files
// ---------------------------------------------------------------------------------------------

/// Whether a file may be launched: a regular file with content, not larger than allowed, that no
/// one but its owner can write, and executable where it has to be.
pub open spec fn is_safe_launch_file(
    facts: LaunchFacts,
    maximum_size: Option<u64>,
    require_executable: bool,
) -> bool {
    &&& !facts.is_symlink
    &&& facts.is_file
    &&& facts.identity.length > 0
    &&& maximum_size matches Some(maximum) ==> facts.identity.length <= maximum
    &&& require_executable ==> facts.mode & ANY_EXECUTE != 0
    &&& facts.mode & FOREIGN_WRITE == 0
}

/// Why a launch file is refused.
pub open spec fn launch_file_fault(
    platform: Platform,
    facts: LaunchFacts,
    maximum_size: Option<u64>,
    require_executable: bool,
) -> Option<WorkerRunnerErrorView> {
    if is_safe_launch_file(facts, maximum_size, require_executable) {
        None
    } else if platform == Platform::MacOs {
        runner_io("launch file has unsafe type, size, or mode"@)
    } else {
        runner_io("launch file has unsafe type, size, ownership mode, or executable mode"@)
    }
}

fn is_safe(facts: &LaunchFacts, maximum_size: Option<u64>, require_executable: bool) -> (result:
    bool)
    ensures
        result == is_safe_launch_file(*facts, maximum_size, require_executable),
{
    let small_enough = match maximum_size {
        Some(maximum) => facts.identity.length <= maximum,
        None => true,
    };
    !facts.is_symlink && facts.is_file && facts.identity.length > 0 && small_enough && (
    !require_executable || facts.mode & ANY_EXECUTE != 0) && facts.mode & FOREIGN_WRITE == 0
}

/// Check a launch file.
pub fn validate_launch_file_metadata(
    platform: Platform,
    facts: &LaunchFacts,
    maximum_size: Option<u64>,
    require_executable: bool,
) -> (result: Result<(), WorkerRunnerError>)
    ensures
        pipeline::is_verdict(
            result,
            launch_file_fault(platform, *facts, maximum_size, require_executable),
        ),
{
    if is_safe(facts, maximum_size, require_executable) {
        Ok(())
    } else if platform == Platform::MacOs {
        refuse("launch file has unsafe type, size, or mode")
    } else {
        refuse("launch file has unsafe type, size, ownership mode, or executable mode")
    }
}

/// Why an executable is refused as the worker.
pub open spec fn executable_fault(path: Seq<char>, looked: Result<LaunchFacts, String>) -> Option<
    WorkerRunnerErrorView,
> {
    if !paths::path_view(path).absolute {
        runner_io("worker executable path must be absolute"@)
    } else {
        match looked {
            Err(cause) => runner_io(cause@),
            Ok(facts) => if is_safe_launch_file(facts, None, true) {
                None
            } else {
                runner_io(
                    "worker executable must be a non-symlink executable that is not group- or world-writable"@,
                )
            },
        }
    }
}

/// Check the executable that is to be launched as the worker. `looked` is what a look at its path
/// came to.
pub fn validate_executable(path: &str, looked: &Result<LaunchFacts, String>) -> (result: Result<
    (),
    WorkerRunnerError,
>)
    ensures
        pipeline::is_verdict(result, executable_fault(path@, *looked)),
{
    if !paths::is_absolute(path) {
        return refuse("worker executable path must be absolute");
    }
    match looked {
        Err(cause) => refuse(cause.as_str()),
        Ok(facts) => {
            if is_safe(facts, None, true) {
                Ok(())
            } else {
                refuse(
                    "worker executable must be a non-symlink executable that is not group- or world-writable",
                )
            }
        },
    }
}

// ---------------------------------------------------------------------------------------------
// The same files
// ---------------------------------------------------------------------------------------------

/// Why a file is not the pinned one any more.
pub open spec fn change_fault(
    platform: Platform,
    identity: FileIdentity,
    looked: Result<LaunchFacts, String>,
) -> Option<WorkerRunnerErrorView> {
    match looked {
        Err(cause) => runner_io(cause@),
        Ok(facts) => if facts.is_symlink || !facts.is_file {
            runner_io(
                if platform == Platform::MacOs {
                    "launch file must remain a non-symlink regular file"@
                } else {
                    "privileged executable must be a non-symlink regular file"@
                },
            )
        } else if facts.identity != identity {
            runner_io(
                if platform == Platform::MacOs {
                    "launch file changed during worker startup"@
                } else {
                    "pinned launch file changed during worker launch"@
                },
            )
        } else {
            None
        },
    }
}

impl FileIdentity {
    /// Check that a file is still the pinned one. `looked` is what a look at its path came to.
    pub fn ensure_unchanged(&self, platform: Platform, looked: &Result<LaunchFacts, String>) -> (
        result: Result<(), WorkerRunnerError>)
        ensures
            pipeline::is_verdict(result, change_fault(platform, *self, *looked)),
    {
        match looked {
            Err(cause) => refuse(cause.as_str()),
            Ok(facts) => {
                if facts.is_symlink || !facts.is_file {
                    if platform == Platform::MacOs {
                        refuse("launch file must remain a non-symlink regular file")
                    } else {
                        refuse("privileged executable must be a non-symlink regular file")
                    }
                } else if facts.identity != *self {
                    if platform == Platform::MacOs {
                        refuse("launch file changed during worker startup")
                    } else {
                        refuse("pinned launch file changed during worker launch")
                    }
                } else {
                    Ok(())
                }
            },
        }
    }
}

/// The identities of the two files of a launch.
#[derive(Clone, Copy, Debug, PartialEq, Eq, Structural)]
pub struct LaunchIdentity {
    pub executable: FileIdentity,
    pub job: FileIdentity,
}

/// Why the files of a launch are not the pinned ones any more.
pub open spec fn launch_change_fault(
    platform: Platform,
    identity: LaunchIdentity,
    executable: Result<LaunchFacts, String>,
    job: Result<LaunchFacts, String>,
) -> Option<WorkerRunnerErrorView> {
    match change_fault(platform, identity.executable, executable) {
        Some(fault) => Some(fault),
        None => change_fault(platform, identity.job, job),
    }
}

impl LaunchIdentity {
    /// Check that both files are still the pinned ones.
    pub fn ensure_unchanged(
        &self,
        platform: Platform,
        executable: &Result<LaunchFacts, String>,
        job: &Result<LaunchFacts, String>,
    ) -> (result: Result<(), WorkerRunnerError>)
        ensures
            pipeline::is_verdict(
                result,
                launch_change_fault(platform, *self, *executable, *job),
            ),
    {
        match self.executable.ensure_unchanged(platform, executable) {
            Err(error) => Err(error),
            Ok(()) => self.job.ensure_unchanged(platform, job),
        }
    }
}

// ---------------------------------------------------------------------------------------------
// Pinning and hashing
// ---------------------------------------------------------------------------------------------

/// What pinning a file waits for.
#[derive(Clone, Copy, Debug, PartialEq, Eq, Structural)]
pub enum PinPhase {
    /// What a look at the path shows.
    LookingBefore,
    /// The file is to be opened, without following a link.
    Opening,
    /// What the opened file is.
    LookingOpened,
    /// The next bytes are to be read.
    Reading,
    /// What the opened file is, after it was read.
    LookingAfter,
    /// What a look at the path shows, after the file was read.
    LookingLast,
    /// The file is pinned or refused.
    Closed,
}

/// What an access came to.
#[derive(Debug)]
pub enum PinEvent {
    /// What a look shows.
    Looked(LaunchFacts),
    /// The file was opened.
    Opened,
    /// The bytes that a read gave; none at the end.
    Chunk(Vec<u8>),
    /// The access failed.
    Failed(String),
}

impl PinEvent {
    /// The bytes that the event brought.
    pub open spec fn bytes(self) -> Seq<u8> {
        match self {
            PinEvent::Chunk(chunk) => chunk@,
            _ => Seq::empty(),
        }
    }
}

/// What to do next.
#[derive(Debug)]
pub enum PinAction {
    /// Look at the path, without following a final link.
    LookAtPath,
    /// Open the path for reading, without following a final link.
    Open,
    /// Look at the opened file.
    LookAtFile,
    /// Read the next bytes of the opened file.
    Read,
    /// Keep the file open: this is its identity, and the digest of what it holds.
    Pinned { identity: FileIdentity, sha256: String },
    /// Report the error.
    Fail(WorkerRunnerError),
}

/// What a [`PinAction`] holds.
pub enum PinActionView {
    LookAtPath,
    Open,
    LookAtFile,
    Read,
    Pinned { identity: FileIdentity, sha256: Seq<char> },
    Fail(WorkerRunnerErrorView),
}

impl View for PinAction {
    type V = PinActionView;

    open spec fn view(&self) -> PinActionView {
        match *self {
            PinAction::LookAtPath => PinActionView::LookAtPath,
            PinAction::Open => PinActionView::Open,
            PinAction::LookAtFile => PinActionView::LookAtFile,
            PinAction::Read => PinActionView::Read,
            PinAction::Pinned { identity, sha256 } => PinActionView::Pinned {
                identity,
                sha256: sha256@,
            },
            PinAction::Fail(error) => PinActionView::Fail(error@),
        }
    }
}

/// The state of a file that is being pinned.
pub struct PinState {
    pub platform: Platform,
    pub maximum_size: Option<u64>,
    pub require_executable: bool,
    pub phase: PinPhase,
    /// What the path showed at first.
    pub identity: FileIdentity,
    /// What the opened file was after it was read.
    pub after: LaunchFacts,
    /// The bytes read so far.
    pub read: Seq<u8>,
}

impl PinState {
    /// Whether the event answers what is waited for.
    pub open spec fn expects(self, event: PinEvent) -> bool {
        event is Failed && self.phase != PinPhase::Closed || match self.phase {
            PinPhase::LookingBefore
            | PinPhase::LookingOpened
            | PinPhase::LookingAfter
            | PinPhase::LookingLast => event is Looked,
            PinPhase::Opening => event is Opened,
            PinPhase::Reading => event is Chunk,
            PinPhase::Closed => false,
        }
    }

    /// The file is refused.
    pub open spec fn fail(self, error: WorkerRunnerErrorView) -> (PinState, PinActionView) {
        (PinState { phase: PinPhase::Closed, ..self }, PinActionView::Fail(error))
    }

    /// Why facts are refused.
    pub open spec fn fault(self, facts: LaunchFacts) -> Option<WorkerRunnerErrorView> {
        launch_file_fault(self.platform, facts, self.maximum_size, self.require_executable)
    }

    /// What a look has shown.
    pub open spec fn looked(self, facts: LaunchFacts) -> (PinState, PinActionView) {
        match self.phase {
            PinPhase::LookingBefore => match self.fault(facts) {
                Some(fault) => self.fail(fault),
                None => (
                    PinState { phase: PinPhase::Opening, identity: facts.identity, ..self },
                    PinActionView::Open,
                ),
            },
            PinPhase::LookingOpened => match self.fault(facts) {
                Some(fault) => self.fail(fault),
                None => if facts.identity != self.identity {
                    self.fail(
                        WorkerRunnerErrorView::Io("launch file changed while it was opened"@),
                    )
                } else {
                    (PinState { phase: PinPhase::Reading, ..self }, PinActionView::Read)
                },
            },
            PinPhase::LookingAfter => (
                PinState { phase: PinPhase::LookingLast, after: facts, ..self },
                PinActionView::LookAtPath,
            ),
            _ => match self.fault(self.after) {
                Some(fault) => self.fail(fault),
                None => match self.fault(facts) {
                    Some(fault) => self.fail(fault),
                    None => if self.after.identity != self.identity || facts.identity
                        != self.identity {
                        self.fail(
                            WorkerRunnerErrorView::Io("launch file changed while it was hashed"@),
                        )
                    } else {
                        (
                            PinState { phase: PinPhase::Closed, ..self },
                            PinActionView::Pinned {
                                identity: self.identity,
                                sha256: digest::sha256_text(self.read),
                            },
                        )
                    },
                },
            },
        }
    }

    /// What follows on an event.
    pub open spec fn step(self, event: PinEvent) -> (PinState, PinActionView) {
        match event {
            PinEvent::Failed(cause) => self.fail(WorkerRunnerErrorView::Io(cause@)),
            PinEvent::Looked(facts) => self.looked(facts),
            PinEvent::Opened => (
                PinState { phase: PinPhase::LookingOpened, ..self },
                PinActionView::LookAtFile,
            ),
            PinEvent::Chunk(chunk) => if chunk@.len() == 0 {
                (PinState { phase: PinPhase::LookingAfter, ..self }, PinActionView::LookAtFile)
            } else {
                (PinState { read: self.read + chunk@, ..self }, PinActionView::Read)
            },
        }
    }
}

/// A file that is being pinned: opened, hashed, and found the same before and after.
pub struct Pinning {
    platform: Platform,
    maximum_size: Option<u64>,
    require_executable: bool,
    phase: PinPhase,
    identity: FileIdentity,
    after: LaunchFacts,
    hasher: Hasher,
}

impl View for Pinning {
    type V = PinState;

    closed spec fn view(&self) -> PinState {
        PinState {
            platform: self.platform,
            maximum_size: self.maximum_size,
            require_executable: self.require_executable,
            phase: self.phase,
            identity: self.identity,
            after: self.after,
            read: digest::hashed_bytes(self.hasher),
        }
    }
}

/// The identity of no file.
pub open spec fn no_identity() -> FileIdentity {
    FileIdentity {
        device: 0,
        inode: 0,
        length: 0,
        modified_seconds: 0,
        modified_nanoseconds: 0,
        changed_seconds: 0,
        changed_nanoseconds: 0,
    }
}

/// How pinning begins.
pub open spec fn pin_start(
    platform: Platform,
    maximum_size: Option<u64>,
    require_executable: bool,
) -> PinState {
    PinState {
        platform,
        maximum_size,
        require_executable,
        phase: PinPhase::LookingBefore,
        identity: no_identity(),
        after: LaunchFacts {
            is_symlink: false,
            is_file: false,
            mode: 0,
            identity: no_identity(),
        },
        read: Seq::empty(),
    }
}

impl FileIdentity {
    /// The identity of no file.
    pub(crate) fn none() -> (identity: FileIdentity)
        ensures
            identity == no_identity(),
    {
        FileIdentity {
            device: 0,
            inode: 0,
            length: 0,
            modified_seconds: 0,
            modified_nanoseconds: 0,
            changed_seconds: 0,
            changed_nanoseconds: 0,
        }
    }
}

impl Pinning {
    /// Start pinning the file at an absolute path.
    pub fn start(
        platform: Platform,
        path: &str,
        maximum_size: Option<u64>,
        require_executable: bool,
    ) -> (result: Result<(Pinning, PinAction), WorkerRunnerError>)
        ensures
            match result {
                Ok((pinning, action)) => {
                    &&& paths::path_view(path@).absolute
                    &&& pinning@ == pin_start(platform, maximum_size, require_executable)
                    &&& action@ == PinActionView::LookAtPath
                },
                Err(error) => !paths::path_view(path@).absolute && Some(error@) == runner_io(
                    "launch file path must be absolute"@,
                ),
            },
    {
        if !paths::is_absolute(path) {
            return refuse("launch file path must be absolute");
        }
        let identity = FileIdentity::none();
        let after = LaunchFacts { is_symlink: false, is_file: false, mode: 0, identity };
        Ok(
            (
                Pinning {
                    platform,
                    maximum_size,
                    require_executable,
                    phase: PinPhase::LookingBefore,
                    identity,
                    after,
                    hasher: Hasher::new(),
                },
                PinAction::LookAtPath,
            ),
        )
    }

    fn fail(&mut self, error: WorkerRunnerError) -> (action: PinAction)
        ensures
            (final(self)@, action@) == old(self)@.fail(error@),
    {
        self.phase = PinPhase::Closed;
        PinAction::Fail(error)
    }

    fn check(&self, facts: &LaunchFacts) -> (result: Result<(), WorkerRunnerError>)
        ensures
            pipeline::is_verdict(result, self@.fault(*facts)),
    {
        validate_launch_file_metadata(
            self.platform,
            facts,
            self.maximum_size,
            self.require_executable,
        )
    }

    fn looked(&mut self, facts: &LaunchFacts) -> (action: PinAction)
        ensures
            (final(self)@, action@) == old(self)@.looked(*facts),
    {
        match self.phase {
            PinPhase::LookingBefore => match self.check(facts) {
                Err(error) => self.fail(error),
                Ok(()) => {
                    self.identity = facts.identity;
                    self.phase = PinPhase::Opening;
                    PinAction::Open
                },
            },
            PinPhase::LookingOpened => match self.check(facts) {
                Err(error) => self.fail(error),
                Ok(()) => {
                    if facts.identity != self.identity {
                        return self.fail(
                            WorkerRunnerError::Io(
                                "launch file changed while it was opened".to_owned(),
                            ),
                        );
                    }
                    self.phase = PinPhase::Reading;
                    PinAction::Read
                },
            },
            PinPhase::LookingAfter => {
                self.after = *facts;
                self.phase = PinPhase::LookingLast;
                PinAction::LookAtPath
            },
            _ => {
                let after = self.after;
                match self.check(&after) {
                    Err(error) => {
                        return self.fail(error);
                    },
                    Ok(()) => {},
                }
                match self.check(facts) {
                    Err(error) => {
                        return self.fail(error);
                    },
                    Ok(()) => {},
                }
                if after.identity != self.identity || facts.identity != self.identity {
                    return self.fail(
                        WorkerRunnerError::Io("launch file changed while it was hashed".to_owned()),
                    );
                }
                self.phase = PinPhase::Closed;
                let digest = self.hasher.digest();
                PinAction::Pinned { identity: self.identity, sha256: hex_encode(&digest) }
            },
        }
    }

    /// What follows on an event.
    pub fn step(&mut self, event: &PinEvent) -> (action: PinAction)
        requires
            old(self)@.expects(*event),
        ensures
            (final(self)@, action@) == old(self)@.step(*event),
    {
        match event {
            PinEvent::Failed(cause) => self.fail(WorkerRunnerError::Io(cause.clone())),
            PinEvent::Looked(facts) => self.looked(facts),
            PinEvent::Opened => {
                self.phase = PinPhase::LookingOpened;
                PinAction::LookAtFile
            },
            PinEvent::Chunk(chunk) => {
                if chunk.len() == 0 {
                    self.phase = PinPhase::LookingAfter;
                    PinAction::LookAtFile
                } else {
                    self.hasher.update(chunk.as_slice());
                    PinAction::Read
                }
            },
        }
    }
}

/// The state after some events.
pub open spec fn pin_after(start: PinState, events: Seq<PinEvent>) -> PinState
    decreases events.len(),
{
    if events.len() == 0 {
        start
    } else {
        pin_after(start, events.drop_last()).step(events.last()).0
    }
}

/// Whether each event answers what was waited for.
pub open spec fn pin_accepts(start: PinState, events: Seq<PinEvent>) -> bool
    decreases events.len(),
{
    events.len() == 0 || (pin_accepts(start, events.drop_last()) && pin_after(
        start,
        events.drop_last(),
    ).expects(events.last()))
}

/// The bytes that some events brought.
pub open spec fn pin_bytes(events: Seq<PinEvent>) -> Seq<u8>
    decreases events.len(),
{
    if events.len() == 0 {
        Seq::empty()
    } else {
        pin_bytes(events.drop_last()) + events.last().bytes()
    }
}

/// The looks among some events.
pub open spec fn pin_looks(events: Seq<PinEvent>) -> Seq<LaunchFacts>
    decreases events.len(),
{
    if events.len() == 0 {
        Seq::empty()
    } else {
        match events.last() {
            PinEvent::Looked(facts) => pin_looks(events.drop_last()).push(facts),
            _ => pin_looks(events.drop_last()),
        }
    }
}

/// How many looks a file has had in this phase.
spec fn looks_before(phase: PinPhase) -> nat {
    match phase {
        PinPhase::LookingBefore => 0,
        PinPhase::Opening | PinPhase::LookingOpened => 1,
        PinPhase::Reading | PinPhase::LookingAfter => 2,
        _ => 3,
    }
}

spec fn pin_keeps(start: PinState, events: Seq<PinEvent>) -> bool {
    let state = pin_after(start, events);
    let looks = pin_looks(events);
    &&& state.platform == start.platform
    &&& state.maximum_size == start.maximum_size
    &&& state.require_executable == start.require_executable
    &&& state.read == start.read + pin_bytes(events)
    &&& state.phase != PinPhase::Closed ==> {
        &&& looks.len() == looks_before(state.phase)
        &&& looks.len() == 3 ==> looks[2] == state.after
        &&& forall|i: int|
            0 <= i < looks.len() && i < 2 ==> (#[trigger] looks[i]).identity == state.identity
                && state.fault(looks[i]) is None
    }
}

proof fn pin_is_kept(start: PinState, events: Seq<PinEvent>)
    requires
        start.phase == PinPhase::LookingBefore,
        pin_accepts(start, events),
    ensures
        pin_keeps(start, events),
    decreases events.len(),
{
    if events.len() == 0 {
        assert(start.read + pin_bytes(events) =~= start.read);
    } else {
        let before = events.drop_last();
        pin_is_kept(start, before);
        let state = pin_after(start, before);
        let after = pin_after(start, events);
        assert(after.read =~= start.read + pin_bytes(events));
    }
}

/// A pinned file was safe, with one and the same identity, at each of four looks: at the path and
/// at the opened file, before and after it was read. Its digest is that of the bytes read.
pub proof fn pinned_file_is_what_was_read(start: PinState, events: Seq<PinEvent>, event: PinEvent)
    requires
        start.phase == PinPhase::LookingBefore,
        start.read == Seq::<u8>::empty(),
        pin_accepts(start, events),
        pin_after(start, events).expects(event),
        pin_after(start, events).step(event).1 is Pinned,
    ensures
        ({
            let pinned = pin_after(start, events).step(event).1;
            let looks = pin_looks(events.push(event));
            &&& pinned->sha256 == digest::sha256_text(pin_bytes(events.push(event)))
            &&& looks.len() == 4
            &&& forall|i: int|
                0 <= i < 4 ==> (#[trigger] looks[i]).identity == pinned->identity
                    && is_safe_launch_file(
                    looks[i],
                    start.maximum_size,
                    start.require_executable,
                )
        }),
{
    pin_is_kept(start, events);
    let all = events.push(event);
    assert(all.drop_last() =~= events);
    assert(all.last() == event);
    let state = pin_after(start, events);
    assert(state.phase == PinPhase::LookingLast);
    assert(pin_bytes(all) =~= pin_bytes(events));
    assert(start.read + pin_bytes(events) =~= pin_bytes(events));
    let looks = pin_looks(all);
    assert(looks == pin_looks(events).push(event->Looked_0));
    assert forall|i: int| 0 <= i < 4 implies (#[trigger] looks[i]).identity == state.identity
        && is_safe_launch_file(looks[i], start.maximum_size, start.require_executable) by {
        if i < 2 {
            assert(looks[i] == pin_looks(events)[i]);
        } else if i == 2 {
            assert(looks[i] == state.after);
        } else {
            assert(looks[i] == event->Looked_0);
        }
    }
}

// ---------------------------------------------------------------------------------------------
// Windows
// ---------------------------------------------------------------------------------------------

/// Whether a file can be pinned on Windows.
pub open spec fn is_pinnable(facts: WindowsFileFacts, expected_size: Option<u64>) -> bool {
    &&& facts.is_file
    &&& facts.attributes & FILE_ATTRIBUTE_REPARSE_POINT == 0
    &&& expected_size matches Some(size) ==> facts.length == size
}

fn can_be_pinned(facts: &WindowsFileFacts, expected_size: Option<u64>) -> (result: bool)
    ensures
        result == is_pinnable(*facts, expected_size),
{
    let right_size = match expected_size {
        Some(size) => facts.length == size,
        None => true,
    };
    facts.is_file && facts.attributes & FILE_ATTRIBUTE_REPARSE_POINT == 0 && right_size
}

/// Check a file before it is opened to be pinned.
pub fn validate_unpinned(facts: &WindowsFileFacts, expected_size: Option<u64>) -> (result: Result<
    (),
    WorkerRunnerError,
>)
    ensures
        pipeline::is_verdict(
            result,
            if is_pinnable(*facts, expected_size) {
                None
            } else {
                runner_io("refusing to pin an unsafe launch file"@)
            },
        ),
{
    if can_be_pinned(facts, expected_size) {
        Ok(())
    } else {
        refuse("refusing to pin an unsafe launch file")
    }
}

/// Check the opened file. `same` tells whether the path still leads to it.
pub fn validate_pinned(facts: &WindowsFileFacts, same: bool, expected_size: Option<u64>) -> (result:
    Result<(), WorkerRunnerError>)
    ensures
        pipeline::is_verdict(
            result,
            if same && is_pinnable(*facts, expected_size) {
                None
            } else {
                runner_io("launch file changed while it was pinned"@)
            },
        ),
{
    if same && can_be_pinned(facts, expected_size) {
        Ok(())
    } else {
        refuse("launch file changed while it was pinned")
    }
}

/// Why a job file of this size is not handed to a worker.
pub open spec fn job_size_fault(size: nat) -> Option<WorkerRunnerErrorView> {
    if 0 < size <= MAX_WORKER_JOB_SIZE {
        None
    } else {
        runner_io("worker job has an unsafe size"@)
    }
}

/// Check the size of a pinned job file.
pub fn validate_job_size(size: u64) -> (result: Result<(), WorkerRunnerError>)
    ensures
        pipeline::is_verdict(result, job_size_fault(size as nat)),
{
    if size == 0 || size > MAX_WORKER_JOB_SIZE {
        refuse("worker job has an unsafe size")
    } else {
        Ok(())
    }
}

/// The digest of a pinned job file, of which one byte more than [`MAX_WORKER_JOB_SIZE`] was read at
/// most.
pub fn job_digest(size: u64, encoded: &Vec<u8>) -> (result: Result<String, WorkerRunnerError>)
    ensures
        match result {
            Ok(sha256) => encoded@.len() == size && sha256@ == digest::sha256_text(encoded@),
            Err(error) => encoded@.len() != size && Some(error@) == runner_io(
                "worker job changed while it was pinned"@,
            ),
        },
{
    if encoded.len() as u64 != size {
        return refuse("worker job changed while it was pinned");
    }
    let digest = digest::sha256_of(encoded.as_slice());
    Ok(hex_encode(&digest))
}

/// A launch file passes exactly where it is a plain file with content, not larger than allowed, that
/// only its owner may write, and executable where it has to be; and an executable is accepted as the
/// worker exactly where its path starts at the root and it is such a file.
pub proof fn safe_files_may_be_launched(
    platform: Platform,
    path: Seq<char>,
    facts: LaunchFacts,
    maximum_size: Option<u64>,
    require_executable: bool,
)
    ensures
        launch_file_fault(platform, facts, maximum_size, require_executable) is None <==> {
            &&& facts.is_file && !facts.is_symlink
            &&& facts.identity.length > 0
            &&& maximum_size is Some ==> facts.identity.length <= maximum_size->0
            &&& require_executable ==> facts.mode & 0o111 != 0
            &&& facts.mode & 0o022 == 0
        },
        executable_fault(path, Ok(facts)) is None <==> {
            &&& path.len() > 0 && path[0] == '/'
            &&& facts.is_file && !facts.is_symlink
            &&& facts.identity.length > 0
            &&& facts.mode & 0o111 != 0
            &&& facts.mode & 0o022 == 0
        },
        forall|cause: String|
            #![trigger cause@]
            executable_fault(path, Err(cause)) is Some && (path.len() > 0 && path[0] == '/'
                ==> executable_fault(path, Err(cause)) == Some(
                WorkerRunnerErrorView::Io(cause@),
            )),
{
}

/// A pinned file counts as the same exactly where it is still a plain file with the same device,
/// inode, length and times; and a launch exactly where both of its files are.
pub proof fn changed_file_is_noticed(
    platform: Platform,
    identity: LaunchIdentity,
    executable: Result<LaunchFacts, String>,
    job: Result<LaunchFacts, String>,
)
    ensures
        change_fault(platform, identity.executable, executable) is None <==> (
        executable matches Ok(facts) && facts.is_file && !facts.is_symlink && facts.identity.device
            == identity.executable.device && facts.identity.inode == identity.executable.inode
            && facts.identity.length == identity.executable.length
            && facts.identity.modified_seconds == identity.executable.modified_seconds
            && facts.identity.modified_nanoseconds == identity.executable.modified_nanoseconds
            && facts.identity.changed_seconds == identity.executable.changed_seconds
            && facts.identity.changed_nanoseconds == identity.executable.changed_nanoseconds),
        launch_change_fault(platform, identity, executable, job) is None <==> change_fault(
            platform,
            identity.executable,
            executable,
        ) is None && change_fault(platform, identity.job, job) is None,
        launch_change_fault(platform, identity, executable, job) matches Some(fault) ==> fault
            is Io,
{
}

/// A file that is safe and stays the same is pinned: it is looked at, opened, looked at again, read
/// chunk by chunk to its end, and looked at twice more; then it is pinned with its identity and the
/// digest of all that was read.
pub proof fn steady_file_is_pinned(
    state: PinState,
    facts: LaunchFacts,
    chunk: PinEvent,
    end: PinEvent,
)
    requires
        state.phase == PinPhase::LookingBefore,
        launch_file_fault(
            state.platform,
            facts,
            state.maximum_size,
            state.require_executable,
        ) is None,
        chunk is Chunk && chunk.bytes().len() > 0,
        end is Chunk && end.bytes().len() == 0,
    ensures
        ({
            let (first, opens) = state.step(PinEvent::Looked(facts));
            let (second, looks) = first.step(PinEvent::Opened);
            let (third, reads) = second.step(PinEvent::Looked(facts));
            let (fourth, reads_on) = third.step(chunk);
            let (fifth, looks_again) = fourth.step(end);
            let (sixth, looks_last) = fifth.step(PinEvent::Looked(facts));
            let (seventh, pinned) = sixth.step(PinEvent::Looked(facts));
            &&& opens is Open
            &&& looks is LookAtFile
            &&& reads is Read
            &&& reads_on is Read
            &&& fourth == PinState { read: third.read + chunk.bytes(), ..third }
            &&& looks_again is LookAtFile
            &&& looks_last is LookAtPath
            &&& pinned == PinActionView::Pinned {
                identity: facts.identity,
                sha256: digest::sha256_text(state.read + chunk.bytes()),
            }
        }),
{
}

/// A file is refused only for a reason: an access failed, it is not safe, or it is not the file that
/// was seen first.
pub proof fn refused_file_has_its_reason(state: PinState, event: PinEvent)
    requires
        state.expects(event),
    ensures
        event matches PinEvent::Failed(cause) ==> state.step(event).1 == PinActionView::Fail(
            WorkerRunnerErrorView::Io(cause@),
        ),
        state.step(event).1 is Fail && !(event is Failed) ==> {
            &&& event matches PinEvent::Looked(facts)
            &&& {
                ||| launch_file_fault(
                    state.platform,
                    facts,
                    state.maximum_size,
                    state.require_executable,
                ) is Some
                ||| state.phase != PinPhase::LookingBefore && facts.identity != state.identity
                ||| state.phase == PinPhase::LookingLast && (launch_file_fault(
                    state.platform,
                    state.after,
                    state.maximum_size,
                    state.require_executable,
                ) is Some || state.after.identity != state.identity)
            }
        },
{
}

/// A file can be pinned on Windows exactly where it is a plain file, no reparse point, and of the
/// expected size where one is expected.
pub proof fn plain_windows_files_can_be_pinned(
    facts: WindowsFileFacts,
    expected_size: Option<u64>,
)
    ensures
        is_pinnable(facts, expected_size) <==> facts.is_file && facts.attributes & 0x400 == 0 && (
        expected_size is Some ==> facts.length == expected_size->0),
{
}

} // verus!
