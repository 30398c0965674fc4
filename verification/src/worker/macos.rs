//! macOS raw-device worker backend.
//!
//! The worker never opens a raw device by its path. It is handed a descriptor that the system has
//! authorized, and checks that the descriptor stands for the selected disk.

use vstd::prelude::*;
use vstd::string::*;

use crate::drives;
use crate::drives::macos;
use crate::drives::macos::{
    disk_identifier, removable_drive_by_stable_id, split_stable_identifier,
};
use crate::macos_native::DiskRecord;
use crate::text;
use crate::text::join2;
use crate::worker;
use crate::worker::session::FileFacts;
use crate::worker::{
    compare_drive, invalid_session, WorkerDrive, WorkerDriveView, WorkerError, WorkerErrorView,
};

verus! {

/// How often the selected medium is looked for while the system settles it.
pub const TARGET_SETTLE_ATTEMPTS: usize = 25;

/// How many milliseconds pass between two looks.
pub const TARGET_SETTLE_DELAY_MILLISECONDS: u64 = 100;

/// What the worker sends to ask for the target.
pub const TARGET_FD_REQUEST: &'static str = "SNAPDOG_TARGET_FD_REQUEST_V1\n";

/// What comes with the target.
pub const TARGET_FD_RESPONSE: &'static str = "SNAPDOG_TARGET_FD_RESPONSE_V1\n";

/// Why the copy of the raw image is refused.
pub open spec fn staged_fault(look: Result<FileFacts, String>) -> Option<WorkerErrorView> {
    match look {
        Err(cause) => Some(WorkerErrorView::Platform(cause@)),
        Ok(facts) => if facts.is_file && facts.uid != 0 && facts.mode & 0o077 == 0 && facts.links
            <= 1 {
            None
        } else {
            Some(
                WorkerErrorView::InvalidJob(
                    "staged image is not a private file owned by the signed-in user"@,
                ),
            )
        },
    }
}

/// Check that the copy of the raw image is private to a user other than root.
pub fn validate_staged_image(look: &Result<FileFacts, String>) -> (result: Result<(), WorkerError>)
    ensures
        worker::is_verdict(result, staged_fault(*look)),
{
    match look {
        Err(cause) => Err(WorkerError::Platform(cause.clone())),
        Ok(facts) => {
            if !facts.is_file || facts.uid == 0 || facts.mode & 0o077 != 0 || facts.links > 1 {
                return Err(
                    invalid_session(
                        "staged image is not a private file owned by the signed-in user",
                    ),
                );
            }
            Ok(())
        },
    }
}

// ---------------------------------------------------------------------------------------------
// Looking for the medium
// ---------------------------------------------------------------------------------------------

/// What a look for the selected medium gave.
pub type Lookup = Result<Option<WorkerDrive>, WorkerError>;

/// What the records of the I/O Registry say of the selected medium.
pub open spec fn is_lookup(
    lookup: Lookup,
    selected: Seq<char>,
    records: Result<Vec<DiskRecord>, String>,
) -> bool {
    match records {
        Err(cause) => lookup matches Err(error) && error@ == WorkerErrorView::Platform(
            drives::DriveErrorView::Io(cause@).text(),
        ),
        Ok(records) => match macos::collect(records@) {
            Err(fault) => lookup matches Err(error) && error@ == WorkerErrorView::Platform(
                fault.text(),
            ),
            Ok(media) => match macos::drive_of(selected, media) {
                None => lookup matches Ok(None),
                Some(drive) => lookup matches Ok(Some(found)) && found@ == drives::worker_view(
                    drive,
                ),
            },
        },
    }
}

/// Look for the selected medium among the records of the I/O Registry.
pub fn look_up(selected: &WorkerDrive, records: &Result<Vec<DiskRecord>, String>) -> (lookup:
    Lookup)
    ensures
        is_lookup(lookup, selected@.id, *records),
{
    match records {
        Err(cause) => Err(
            WorkerError::Platform(drives::DriveError::Io(cause.clone()).message()),
        ),
        Ok(records) => match removable_drive_by_stable_id(selected.id.as_str(), records) {
            Err(error) => Err(WorkerError::Platform(error.message())),
            Ok(None) => Ok(None),
            Ok(Some(drive)) => Ok(
                Some(
                    WorkerDrive { id: drive.id, device: drive.device, capacity: drive.capacity },
                ),
            ),
        },
    }
}

/// What to do after a look.
#[derive(Debug)]
pub enum LookupAction {
    /// Wait, and look again.
    Retry,
    /// The medium was found, or is gone for good.
    Settled(Option<WorkerDrive>),
    /// Report the error.
    Fail(WorkerError),
}

/// Whether an action follows on a look, which is the one with this number.
pub open spec fn follows_look(action: LookupAction, lookup: Lookup, attempts: nat) -> bool {
    match lookup {
        Err(error) => action matches LookupAction::Fail(fault) && fault == error,
        Ok(Some(drive)) => action matches LookupAction::Settled(Some(found)) && found == drive,
        Ok(None) => if attempts < TARGET_SETTLE_ATTEMPTS {
            action is Retry
        } else {
            action matches LookupAction::Settled(None)
        },
    }
}

/// Looks for a medium that may be gone for a moment while the system settles it.
#[derive(Debug)]
pub struct TargetLookup {
    attempts: usize,
}

impl TargetLookup {
    /// How often the medium was looked for.
    pub closed spec fn attempts(self) -> nat {
        self.attempts as nat
    }

    /// A look that was not made yet.
    pub fn new() -> (lookup: TargetLookup)
        ensures
            lookup.attempts() == 0,
    {
        TargetLookup { attempts: 0 }
    }

    /// What to do after a look: a medium that is not there is looked for again until all attempts
    /// are used up; whatever else comes of a look settles the matter.
    pub fn step(&mut self, lookup: &Lookup) -> (action: LookupAction)
        requires
            old(self).attempts() < TARGET_SETTLE_ATTEMPTS,
        ensures
            final(self).attempts() == old(self).attempts() + 1,
            follows_look(action, *lookup, final(self).attempts()),
    {
        self.attempts = self.attempts + 1;
        match lookup {
            Err(error) => LookupAction::Fail(error.copy()),
            Ok(Some(drive)) => LookupAction::Settled(Some(drive.copy())),
            Ok(None) => {
                if self.attempts < TARGET_SETTLE_ATTEMPTS {
                    LookupAction::Retry
                } else {
                    LookupAction::Settled(None)
                }
            },
        }
    }
}

/// Why what was found is not the selected target.
pub open spec fn target_fault(selected: WorkerDriveView, found: Option<WorkerDriveView>) -> Option<
    WorkerErrorView,
> {
    match (macos::split_identifier(selected.id), found) {
        (None, _) => Some(WorkerErrorView::UnsafeTarget),
        (Some(_), None) => Some(WorkerErrorView::TargetMissing),
        (Some((disk_id, _)), Some(current)) => if current != selected {
            Some(WorkerErrorView::TargetChanged)
        } else if selected.device != macos::device_path(disk_id) {
            Some(WorkerErrorView::UnsafeTarget)
        } else {
            None
        },
    }
}

/// Validate the selected target against the medium that was found.
pub fn validate_target(selected: &WorkerDrive, found: Option<WorkerDrive>) -> (result: Result<
    WorkerDrive,
    WorkerError,
>)
    ensures
        worker::is_verdict(
            result,
            target_fault(
                selected@,
                match found {
                    Some(drive) => Some(drive@),
                    None => None,
                },
            ),
        ),
        result matches Ok(drive) ==> drive@ == selected@,
{
    let disk_id = match split_stable_identifier(selected.id.as_str()) {
        Some((disk_id, _)) => disk_id,
        None => {
            return Err(WorkerError::UnsafeTarget);
        },
    };
    match found {
        None => Err(WorkerError::TargetMissing),
        Some(current) => {
            match compare_drive(selected, &current) {
                Err(error) => {
                    return Err(error);
                },
                Ok(()) => {},
            }
            let device = join2("/dev/", disk_id.as_str());
            if selected.device != device {
                return Err(WorkerError::UnsafeTarget);
            }
            Ok(current)
        },
    }
}

// ---------------------------------------------------------------------------------------------
// The authorized descriptor
// ---------------------------------------------------------------------------------------------

/// What a look at a raw device shows.
#[derive(Clone, Copy, Debug, PartialEq, Eq)]
pub struct RawNodeFacts {
    pub is_char_device: bool,
    pub device: u64,
    pub inode: u64,
    pub rdev: u64,
}

/// Why a descriptor does not stand for the raw device of the selected disk.
pub open spec fn descriptor_fault(
    opened: Result<RawNodeFacts, String>,
    path: Result<RawNodeFacts, String>,
) -> Option<WorkerErrorView> {
    match (opened, path) {
        (Err(cause), _) => Some(
            WorkerErrorView::Platform("inspecting authorized target failed: "@ + cause@),
        ),
        (_, Err(cause)) => Some(
            WorkerErrorView::Platform("inspecting raw target path failed: "@ + cause@),
        ),
        (Ok(opened), Ok(path)) => if opened.is_char_device && path == opened {
            None
        } else {
            Some(WorkerErrorView::UnsafeTarget)
        },
    }
}

/// Check that a descriptor stands for the raw device at a path.
pub fn validate_authorized_descriptor(
    opened: &Result<RawNodeFacts, String>,
    path: &Result<RawNodeFacts, String>,
) -> (result: Result<(), WorkerError>)
    ensures
        worker::is_verdict(result, descriptor_fault(*opened, *path)),
{
    match (opened, path) {
        (Err(cause), _) => Err(
            WorkerError::Platform(join2("inspecting authorized target failed: ", cause.as_str())),
        ),
        (_, Err(cause)) => Err(
            WorkerError::Platform(join2("inspecting raw target path failed: ", cause.as_str())),
        ),
        (Ok(opened), Ok(path)) => {
            if !opened.is_char_device || !path.is_char_device || opened.device != path.device
                || opened.inode != path.inode || opened.rdev != path.rdev {
                return Err(WorkerError::UnsafeTarget);
            }
            Ok(())
        },
    }
}

/// Why the answer to the request for the target is refused.
pub open spec fn response_fault(data: Seq<u8>, descriptors: nat) -> Option<WorkerErrorView> {
    if data == vstd::utf8::encode_utf8(TARGET_FD_RESPONSE@) && descriptors == 1 {
        None
    } else {
        Some(WorkerErrorView::Platform("authorized target response was invalid"@))
    }
}

/// Check the answer to the request for the target: the right words, and one descriptor.
pub fn validate_response(data: &Vec<u8>, descriptors: usize) -> (result: Result<(), WorkerError>)
    ensures
        worker::is_verdict(result, response_fault(data@, descriptors as nat)),
{
    let wanted: &[u8] = TARGET_FD_RESPONSE.as_bytes();
    let mut same = data.len() == wanted.len();
    if same {
        let mut index: usize = 0;
        while index < wanted.len()
            invariant
                index <= wanted@.len(),
                data@.len() == wanted@.len(),
                same == (forall|i: int| 0 <= i < index ==> data@[i] == wanted@[i]),
            decreases wanted@.len() - index,
        {
            if data[index] != wanted[index] {
                same = false;
            }
            index += 1;
        }
        assert(same == (data@ =~= wanted@));
    }
    if same && descriptors == 1 {
        Ok(())
    } else {
        Err(WorkerError::Platform("authorized target response was invalid".to_owned()))
    }
}

/// The unbuffered device of a disk.
pub open spec fn raw_path(disk_id: Seq<char>) -> Seq<char> {
    "/dev/r"@ + disk_id
}

/// The raw device of a disk.
pub fn raw_device(disk_id: &str) -> (path: String)
    ensures
        path@ == raw_path(disk_id@),
{
    join2("/dev/r", disk_id)
}

// ---------------------------------------------------------------------------------------------
// Operations
// ---------------------------------------------------------------------------------------------

/// What is done with the target.
#[derive(Clone, Copy, Debug, PartialEq, Eq, Structural)]
pub enum MacOperation {
    Unmount,
    Open,
    Eject,
}

/// One step of an operation.
#[derive(Clone, Copy, Debug, PartialEq, Eq, Structural)]
pub enum MacStep {
    /// Validate the target: it has to be the selected one.
    Validate,
    /// Unmount every volume of the disk.
    UnmountDisk,
    /// Receive the authorized descriptor of the raw device.
    ReceiveTarget,
    /// Eject the disk.
    EjectDisk,
}

/// The steps of an operation. After a disk was unmounted or opened it is validated again, and it is
/// ejected only while it is the selected one.
pub open spec fn steps(operation: MacOperation) -> Seq<MacStep> {
    match operation {
        MacOperation::Unmount => seq![MacStep::Validate, MacStep::UnmountDisk, MacStep::Validate],
        MacOperation::Open => seq![MacStep::ReceiveTarget, MacStep::Validate],
        MacOperation::Eject => seq![MacStep::Validate, MacStep::EjectDisk],
    }
}

fn due_step(operation: MacOperation, passed: usize) -> (step: Option<MacStep>)
    ensures
        match step {
            Some(step) => passed < steps(operation).len() && steps(operation)[passed as int]
                == step,
            None => passed >= steps(operation).len(),
        },
{
    match operation {
        MacOperation::Unmount => match passed {
            0 | 2 => Some(MacStep::Validate),
            1 => Some(MacStep::UnmountDisk),
            _ => None,
        },
        MacOperation::Open => match passed {
            0 => Some(MacStep::ReceiveTarget),
            1 => Some(MacStep::Validate),
            _ => None,
        },
        MacOperation::Eject => match passed {
            0 => Some(MacStep::Validate),
            1 => Some(MacStep::EjectDisk),
            _ => None,
        },
    }
}

/// What a step came to.
#[derive(Debug)]
pub enum MacEvent {
    /// The target was validated.
    Target(Result<WorkerDrive, WorkerError>),
    /// The disk was worked on.
    Done(Result<(), WorkerError>),
}

/// What to do next.
#[derive(Debug)]
pub enum MacAction {
    /// Validate the target.
    Validate,
    /// Make this step on the disk with this name.
    Disk(MacStep, String),
    /// All steps were made.
    Finish,
    /// Report the error.
    Fail(WorkerError),
}

/// What a [`MacAction`] holds.
pub enum MacActionView {
    Validate,
    Disk(MacStep, Seq<char>),
    Finish,
    Fail(WorkerErrorView),
}

impl View for MacAction {
    type V = MacActionView;

    open spec fn view(&self) -> MacActionView {
        match *self {
            MacAction::Validate => MacActionView::Validate,
            MacAction::Disk(step, disk_id) => MacActionView::Disk(step, disk_id@),
            MacAction::Finish => MacActionView::Finish,
            MacAction::Fail(error) => MacActionView::Fail(error@),
        }
    }
}

/// The state of an operation.
pub struct MacState {
    pub operation: MacOperation,
    pub selected: WorkerDriveView,
    /// How many steps were passed.
    pub passed: nat,
    /// Whether a step was not passed.
    pub failed: bool,
}

impl MacState {
    /// Whether the event answers the step that is due.
    pub open spec fn expects(self, event: MacEvent) -> bool {
        &&& !self.failed
        &&& self.passed < steps(self.operation).len()
        &&& match steps(self.operation)[self.passed as int] {
            MacStep::Validate => event is Target,
            _ => event is Done,
        }
    }

    /// The operation gives up.
    pub open spec fn fail(self, fault: WorkerErrorView) -> (MacState, MacActionView) {
        (MacState { failed: true, ..self }, MacActionView::Fail(fault))
    }

    /// The step that is due, or the end.
    pub open spec fn next(self) -> (MacState, MacActionView) {
        if self.passed >= steps(self.operation).len() {
            (self, MacActionView::Finish)
        } else {
            match steps(self.operation)[self.passed as int] {
                MacStep::Validate => (self, MacActionView::Validate),
                step => match macos::named_disk(self.selected.id) {
                    Some(disk_id) => (self, MacActionView::Disk(step, disk_id)),
                    None => self.fail(WorkerErrorView::UnsafeTarget),
                },
            }
        }
    }

    /// What follows on an event.
    pub open spec fn step(self, event: MacEvent) -> (MacState, MacActionView) {
        let passed = MacState { passed: self.passed + 1, ..self };
        match event {
            MacEvent::Target(Err(error)) => self.fail(error@),
            MacEvent::Target(Ok(drive)) => if drive@ == self.selected {
                passed.next()
            } else {
                self.fail(WorkerErrorView::TargetChanged)
            },
            MacEvent::Done(Err(error)) => self.fail(error@),
            MacEvent::Done(Ok(_)) => passed.next(),
        }
    }
}

/// Runs an operation on the selected target.
pub struct MacRun<'a> {
    operation: MacOperation,
    selected: &'a WorkerDrive,
    passed: usize,
    failed: bool,
}

impl<'a> View for MacRun<'a> {
    type V = MacState;

    closed spec fn view(&self) -> MacState {
        MacState {
            operation: self.operation,
            selected: self.selected@,
            passed: self.passed as nat,
            failed: self.failed,
        }
    }
}

impl<'a> MacRun<'a> {
    /// Begin an operation.
    pub fn start(operation: MacOperation, selected: &'a WorkerDrive) -> (result: (
        MacRun<'a>,
        MacAction,
    ))
        ensures
            (result.0@, result.1@) == (MacState {
                operation,
                selected: selected@,
                passed: 0,
                failed: false,
            }).next(),
    {
        let mut run = MacRun { operation, selected, passed: 0, failed: false };
        let action = run.next();
        (run, action)
    }

    fn fail(&mut self, error: WorkerError) -> (action: MacAction)
        ensures
            (final(self)@, action@) == old(self)@.fail(error@),
    {
        self.failed = true;
        MacAction::Fail(error)
    }

    fn next(&mut self) -> (action: MacAction)
        ensures
            (final(self)@, action@) == old(self)@.next(),
    {
        match due_step(self.operation, self.passed) {
            None => MacAction::Finish,
            Some(MacStep::Validate) => MacAction::Validate,
            Some(step) => match disk_identifier(self.selected.id.as_str()) {
                Some(disk_id) => MacAction::Disk(step, disk_id),
                None => self.fail(WorkerError::UnsafeTarget),
            },
        }
    }

    /// What to do next after a step was made.
    pub fn step(&mut self, event: &MacEvent) -> (action: MacAction)
        requires
            old(self)@.expects(*event),
        ensures
            (final(self)@, action@) == old(self)@.step(*event),
    {
        match event {
            MacEvent::Target(Err(error)) => {
                return self.fail(error.copy());
            },
            MacEvent::Target(Ok(drive)) => match compare_drive(self.selected, drive) {
                Err(error) => {
                    return self.fail(error);
                },
                Ok(()) => {},
            },
            MacEvent::Done(Err(error)) => {
                return self.fail(error.copy());
            },
            MacEvent::Done(Ok(())) => {},
        }
        self.passed = self.passed + 1;
        self.next()
    }
}

// ---------------------------------------------------------------------------------------------
// What holds of a whole operation
// ---------------------------------------------------------------------------------------------

/// The state after a run of events.
pub open spec fn mac_after(start: MacState, events: Seq<MacEvent>) -> MacState
    decreases events.len(),
{
    if events.len() == 0 {
        start
    } else {
        mac_after(start, events.drop_last()).step(events.last()).0
    }
}

/// Whether every event of the run answers the step that was due.
pub open spec fn mac_accepts(start: MacState, events: Seq<MacEvent>) -> bool
    decreases events.len(),
{
    events.len() == 0 || (mac_accepts(start, events.drop_last()) && mac_after(
        start,
        events.drop_last(),
    ).expects(events.last()))
}

/// Whether a step of an operation on the selected target was passed.
pub open spec fn is_passed(selected: WorkerDriveView, step: MacStep, event: MacEvent) -> bool {
    match event {
        MacEvent::Target(result) => step is Validate && (result matches Ok(drive) && drive@
            == selected),
        MacEvent::Done(result) => !(step is Validate) && result is Ok,
    }
}

proof fn steps_are_passed_in_order(start: MacState, events: Seq<MacEvent>)
    requires
        start.passed == 0,
        mac_accepts(start, events),
        !mac_after(start, events).failed,
    ensures
        mac_after(start, events) == (MacState { passed: events.len(), ..start }),
        forall|i: int| #![trigger events[i]]
            0 <= i < events.len() ==> is_passed(
                start.selected,
                steps(start.operation)[i],
                events[i],
            ),
    decreases events.len(),
{
    if events.len() > 0 {
        let head = events.drop_last();
        steps_are_passed_in_order(start, head);
        assert forall|i: int| #![trigger events[i]] 0 <= i < events.len() implies is_passed(
            start.selected,
            steps(start.operation)[i],
            events[i],
        ) by {
            if i < head.len() {
                assert(head[i] == events[i]);
            }
        }
    }
}

/// An operation is finished only after each of its steps was passed in order: the target was found
/// to be the selected one before and after its volumes were unmounted, after its raw device was
/// opened, and before it was ejected.
pub proof fn finished_operation_validated_its_target(
    start: MacState,
    events: Seq<MacEvent>,
    event: MacEvent,
)
    requires
        start.passed == 0,
        mac_accepts(start, events.push(event)),
        mac_after(start, events).step(event).1 is Finish,
    ensures
        events.len() + 1 == steps(start.operation).len(),
        forall|i: int| #![trigger events.push(event)[i]]
            0 <= i <= events.len() ==> is_passed(
                start.selected,
                steps(start.operation)[i],
                events.push(event)[i],
            ),
{
    let all = events.push(event);
    assert(all.drop_last() =~= events);
    let before = mac_after(start, events);
    assert(mac_after(start, all) == before.step(event).0);
    steps_are_passed_in_order(start, all);
    steps_are_passed_in_order(start, events);
}

/// A medium is looked for again exactly where it was not there and attempts are left; it is given up
/// only after the last of them, and what was found is handed out as it is.
pub proof fn absent_medium_is_looked_for_again(
    action: LookupAction,
    lookup: Lookup,
    attempts: nat,
)
    requires
        follows_look(action, lookup, attempts),
    ensures
        action is Retry <==> lookup == Ok::<Option<WorkerDrive>, WorkerError>(None) && attempts
            < 25,
        action is Fail <==> lookup is Err,
        action matches LookupAction::Settled(found) ==> lookup == Ok::<
            Option<WorkerDrive>,
            WorkerError,
        >(found) && (found is None ==> attempts >= 25),
        action matches LookupAction::Fail(error) ==> lookup == Err::<
            Option<WorkerDrive>,
            WorkerError,
        >(error),
{
}

/// The copy of the raw image is accepted exactly where it is a file of a user other than root, which
/// nobody else may access, and which has at most one name.
pub proof fn staged_image_is_private(look: Result<FileFacts, String>)
    ensures
        staged_fault(look) is None <==> (look matches Ok(facts) && facts.is_file && facts.uid != 0
            && facts.mode & 0o077 == 0 && facts.links <= 1),
        look matches Err(cause) ==> staged_fault(look) == Some(WorkerErrorView::Platform(cause@)),
{
}

/// What was found is the selected target exactly where it agrees with it in every field, and the
/// target's identifier names the disk of its own device; a medium that is not there is missing, and
/// another one has changed.
pub proof fn found_medium_is_the_selected_one(
    selected: WorkerDriveView,
    found: Option<WorkerDriveView>,
)
    ensures
        target_fault(selected, found) is None <==> {
            &&& macos::split_identifier(selected.id) matches Some((disk_id, entry))
            &&& selected.device == macos::device_path(disk_id)
            &&& found matches Some(current)
            &&& current.id == selected.id && current.device == selected.device && current.capacity
                == selected.capacity
        },
        macos::split_identifier(selected.id) is Some && found is None ==> target_fault(
            selected,
            found,
        ) == Some(WorkerErrorView::TargetMissing),
        macos::split_identifier(selected.id) is Some && found is Some && found->0 != selected
            ==> target_fault(selected, found) == Some(WorkerErrorView::TargetChanged),
{
    if let Some(current) = found {
        assert(current == selected <==> current.id == selected.id && current.device
            == selected.device && current.capacity == selected.capacity);
    }
}

/// A descriptor stands for the selected raw device exactly where it is a character device and the
/// very one at the path; and an answer is accepted exactly where it has the agreed words and hands
/// over one descriptor.
pub proof fn authorized_descriptor_is_the_raw_device(
    opened: Result<RawNodeFacts, String>,
    path: Result<RawNodeFacts, String>,
    data: Seq<u8>,
    descriptors: nat,
)
    ensures
        descriptor_fault(opened, path) is None <==> {
            &&& opened matches Ok(facts)
            &&& path matches Ok(named)
            &&& facts.is_char_device && named.is_char_device
            &&& facts.device == named.device && facts.inode == named.inode && facts.rdev
                == named.rdev
        },
        response_fault(data, descriptors) is None <==> descriptors == 1 && data
            == vstd::utf8::encode_utf8(TARGET_FD_RESPONSE@),
{
}

/// Nothing is done to a disk that was not validated right before, but for the descriptor that is
/// received, which is validated right after; each operation does its own work on the disk, once.
pub proof fn disk_is_worked_on_between_validations(operation: MacOperation, at: int)
    requires
        0 <= at < steps(operation).len(),
        !(steps(operation)[at] is Validate),
    ensures
        steps(operation)[at] == (match operation {
            MacOperation::Unmount => MacStep::UnmountDisk,
            MacOperation::Open => MacStep::ReceiveTarget,
            MacOperation::Eject => MacStep::EjectDisk,
        }),
        operation is Open || (at > 0 && steps(operation)[at - 1] is Validate),
        operation is Eject || (at + 1 < steps(operation).len() && steps(operation)[at
            + 1] is Validate),
        forall|i: int|
            0 <= i < steps(operation).len() && i != at ==> (#[trigger] steps(operation)[i])
                is Validate,
{
}

/// Each operation works on the disk.
pub proof fn each_operation_works_on_the_disk(operation: MacOperation)
    ensures
        exists|i: int| 0 <= i < steps(operation).len() && !((#[trigger] steps(operation)[i])
            is Validate),
{
    match operation {
        MacOperation::Open => {
            assert(!(steps(operation)[0] is Validate));
        },
        _ => {
            assert(!(steps(operation)[1] is Validate));
        },
    }
}

/// A step that is passed leads to the next one, on the disk that the target's identifier names, and
/// the last one to the end; an operation fails only with the fault of a step, or where the target is
/// not the selected one, or its identifier names no disk.
pub proof fn passed_step_leads_to_the_next(state: MacState, event: MacEvent)
    requires
        state.expects(event),
    ensures
        ({
            let all = steps(state.operation);
            let (after, action) = state.step(event);
            let passes = match event {
                MacEvent::Target(result) => result matches Ok(drive) && drive@ == state.selected,
                MacEvent::Done(result) => result is Ok,
            };
            &&& passes && state.passed + 1 == all.len() ==> action is Finish
            &&& passes && state.passed + 1 < all.len() ==> after.passed == state.passed + 1
                && match all[state.passed + 1int] {
                MacStep::Validate => action is Validate,
                step => match macos::named_disk(state.selected.id) {
                    Some(disk_id) => action == MacActionView::Disk(step, disk_id),
                    None => action == MacActionView::Fail(WorkerErrorView::UnsafeTarget),
                },
            }
            &&& !passes ==> (action matches MacActionView::Fail(fault) && match event {
                MacEvent::Target(Err(error)) => fault == error@,
                MacEvent::Done(Err(error)) => fault == error@,
                _ => fault is TargetChanged,
            })
        }),
{
}

/// The unbuffered device of a disk ends in the disk's own name: two disks never share one.
pub proof fn raw_device_is_the_disks_own(disk_id: Seq<char>, other: Seq<char>)
    ensures
        text::starts_with(raw_path(disk_id), "/dev/r"@),
        raw_path(disk_id).subrange("/dev/r"@.len() as int, raw_path(disk_id).len() as int)
            == disk_id,
        raw_path(disk_id) == raw_path(other) ==> disk_id == other,
{
    let prefix = "/dev/r"@;
    assert(raw_path(disk_id).subrange(prefix.len() as int, raw_path(disk_id).len() as int)
        =~= disk_id);
    assert(raw_path(other).subrange(prefix.len() as int, raw_path(other).len() as int) =~= other);
    assert(raw_path(disk_id).subrange(0, prefix.len() as int) =~= prefix);
}

/// Nothing that goes wrong is passed over: another target, and every failure, ends the operation with
/// that failure.
pub proof fn trouble_ends_the_operation(state: MacState, event: MacEvent)
    requires
        state.expects(event),
    ensures
        event matches MacEvent::Target(Err(error)) ==> state.step(event).1 == MacActionView::Fail(
            error@,
        ),
        event matches MacEvent::Target(Ok(drive)) ==> drive@ != state.selected ==> state.step(
            event,
        ).1 == MacActionView::Fail(WorkerErrorView::TargetChanged),
        event matches MacEvent::Done(Err(error)) ==> state.step(event).1 == MacActionView::Fail(
            error@,
        ),
{
}

} // verus!
