//! The checks of the selected target, and the steps in which it is opened and made ready for the
//! read-back.

use vstd::prelude::*;
use vstd::string::*;

use crate::drives::linux;
use crate::drives::linux::split_stable_identifier;
use crate::flash::FlashError;
use crate::text;
use crate::text::join2;
use crate::worker;
use crate::worker::linux::devices;
use crate::worker::linux::devices::{
    decode_linux_device, inspect_current_drive, read_device_number, validate_device_node,
    validate_opened_device, AttributeRead, DeviceNumber, DriveAttributes, NodeFacts,
};
use crate::worker::linux::mounts;
use crate::worker::linux::mounts::{reject_protected_mounts, reject_related_swap, SwapSource};
use crate::worker::session::{FileFacts, LookFailure};
use crate::worker::{
    compare_drive, invalid_session, WorkerDrive, WorkerDriveView, WorkerError, WorkerErrorView,
};

verus! {

broadcast use vstd::seq_lib::group_seq_properties;

/// The flag by which an open fails on a mounted device.
pub const O_EXCL: i32 = 0o200;

/// The flag by which reads bypass the page cache.
pub const O_DIRECT: i32 = 0o40_000;

/// The flag by which a write is complete when it returns.
pub const O_SYNC: i32 = 0o4_010_000;

/// Why the copy of the raw image is refused.
pub open spec fn staged_fault(look: Result<FileFacts, String>) -> Option<WorkerErrorView> {
    match look {
        Err(cause) => Some(WorkerErrorView::Platform(cause@)),
        Ok(facts) => if facts.is_file && facts.uid != 0 && facts.mode & 0o077 == 0 && facts.links
            <= 1 {
            None
        } else {
            Some(
                WorkerErrorView::InvalidJob(
                    "staged image is not an unlinked private file owned by the desktop user"@,
                ),
            )
        },
    }
}

/// Check that the copy of the raw image is private to a user other than root.
pub fn validate_staged_image(look: &Result<FileFacts, String>) -> (result: Result<(), WorkerError>)
    ensures
        worker::is_verdict(result, staged_fault(*look)),
{
    match look {
        Err(cause) => Err(WorkerError::Platform(cause.clone())),
        Ok(facts) => {
            if !facts.is_file || facts.uid == 0 || facts.mode & 0o077 != 0 || facts.links > 1 {
                return Err(
                    invalid_session(
                        "staged image is not an unlinked private file owned by the desktop user",
                    ),
                );
            }
            Ok(())
        },
    }
}

/// An error of the disk service.
pub fn udisks_error(message: &str) -> (error: WorkerError)
    ensures
        error@ == WorkerErrorView::Platform("UDisks2 operation failed: "@ + message@),
{
    WorkerError::Platform(join2("UDisks2 operation failed: ", message))
}

// ---------------------------------------------------------------------------------------------
// Validation
// ---------------------------------------------------------------------------------------------

/// Everything that the kernel says of the selected target.
#[derive(Debug)]
pub struct TargetEvidence {
    pub attributes: DriveAttributes,
    /// The device node.
    pub node: Result<NodeFacts, LookFailure>,
    /// The devices that depend on the target.
    pub related: Result<Vec<DeviceNumber>, WorkerError>,
    pub mountinfo: Result<String, String>,
    pub swaps: Result<String, String>,
    /// The sources that the swap list names.
    pub sources: Vec<Result<SwapSource, String>>,
}

impl TargetEvidence {
    /// Whether every source that the swap list names was looked at.
    pub open spec fn is_complete(self) -> bool {
        self.swaps matches Ok(swaps) ==> self.sources@.len() == mounts::swap_records(
            text::lines(swaps@),
        ).len()
    }
}

/// Why a target with these dependent devices is in use by the system.
pub open spec fn use_fault(evidence: TargetEvidence, related: Seq<DeviceNumber>) -> Option<
    WorkerErrorView,
> {
    match evidence.mountinfo {
        Err(cause) => Some(WorkerErrorView::Platform(cause@)),
        Ok(mountinfo) => match mounts::mounts_fault(mountinfo@, related) {
            Some(fault) => Some(fault),
            None => match evidence.swaps {
                Err(cause) => Some(WorkerErrorView::Platform(cause@)),
                Ok(swaps) => mounts::swap_fault(
                    mounts::swap_records(text::lines(swaps@)),
                    evidence.sources@,
                    related,
                ),
            },
        },
    }
}

/// The identity that the target has now, where it is still the selected one and the system does
/// not use it.
pub open spec fn validated(selected: WorkerDriveView, evidence: TargetEvidence) -> Result<
    WorkerDriveView,
    WorkerErrorView,
> {
    match linux::split_identifier(selected.id) {
        None => Err(WorkerErrorView::UnsafeTarget),
        Some((name, _)) => if selected.device != linux::device_path(name) {
            Err(WorkerErrorView::UnsafeTarget)
        } else {
            match devices::current_drive(name, evidence.attributes) {
                Err(fault) => Err(fault),
                Ok(current) => if current.identity() != selected {
                    Err(WorkerErrorView::TargetChanged)
                } else {
                    match devices::path_node_fault(evidence.node, current.device_number) {
                        Some(fault) => Err(fault),
                        None => match evidence.related {
                            Err(error) => Err(error@),
                            Ok(related) => match use_fault(evidence, related@) {
                                Some(fault) => Err(fault),
                                None => Ok(current.identity()),
                            },
                        },
                    }
                },
            }
        },
    }
}

fn check_use(evidence: &TargetEvidence, related: &Vec<DeviceNumber>) -> (result: Result<
    (),
    WorkerError,
>)
    requires
        evidence.is_complete(),
    ensures
        worker::is_verdict(result, use_fault(*evidence, related@)),
{
    match &evidence.mountinfo {
        Err(cause) => {
            return Err(WorkerError::Platform(cause.clone()));
        },
        Ok(mountinfo) => match reject_protected_mounts(mountinfo.as_str(), related) {
            Err(error) => {
                return Err(error);
            },
            Ok(()) => {},
        },
    }
    match &evidence.swaps {
        Err(cause) => Err(WorkerError::Platform(cause.clone())),
        Ok(swaps) => reject_related_swap(swaps.as_str(), &evidence.sources, related),
    }
}

/// Validate the selected target against what the kernel says of it now.
pub fn validate_target_at(selected: &WorkerDrive, evidence: &TargetEvidence) -> (result: Result<
    WorkerDrive,
    WorkerError,
>)
    requires
        evidence.is_complete(),
    ensures
        match result {
            Ok(drive) => validated(selected@, *evidence) == Ok::<WorkerDriveView, WorkerErrorView>(
                drive@,
            ),
            Err(error) => validated(selected@, *evidence) == Err::<
                WorkerDriveView,
                WorkerErrorView,
            >(error@),
        },
{
    let name = match split_stable_identifier(selected.id.as_str()) {
        Some((name, _)) => name,
        None => {
            return Err(WorkerError::UnsafeTarget);
        },
    };
    let device = join2("/dev/", name.as_str());
    if selected.device != device {
        return Err(WorkerError::UnsafeTarget);
    }
    let current = match inspect_current_drive(name.as_str(), &evidence.attributes) {
        Err(error) => {
            return Err(error);
        },
        Ok(current) => current,
    };
    let drive = current.identity();
    match compare_drive(selected, &drive) {
        Err(error) => {
            return Err(error);
        },
        Ok(()) => {},
    }
    match validate_device_node(&evidence.node, current.device_number) {
        Err(error) => {
            return Err(error);
        },
        Ok(()) => {},
    }
    match &evidence.related {
        Err(error) => Err(error.copy()),
        Ok(related) => match check_use(evidence, related) {
            Err(error) => Err(error),
            Ok(()) => Ok(drive),
        },
    }
}

/// A target that was validated is the selected one in every field, the node stands for the device
/// that the kernel describes, and neither the target nor anything that depends on it is mounted
/// outside the roots for removable media or swapped to.
pub proof fn validated_target_is_the_selected_one(
    selected: WorkerDriveView,
    evidence: TargetEvidence,
)
    requires
        validated(selected, evidence) is Ok,
    ensures
        validated(selected, evidence) == Ok::<WorkerDriveView, WorkerErrorView>(selected),
        linux::is_worker_drive(selected),
        evidence.related matches Ok(related) && use_fault(evidence, related@) is None,
{
}

// ---------------------------------------------------------------------------------------------
// Finding the device at the disk service
// ---------------------------------------------------------------------------------------------

/// The first of some device numbers that is the expected one, as the disk service reports them.
pub open spec fn block_position(numbers: Seq<Result<u64, String>>, expected: DeviceNumber) ->
    Result<int, WorkerErrorView>
    decreases numbers.len(),
{
    if numbers.len() == 0 {
        Err(WorkerErrorView::TargetMissing)
    } else {
        match block_position(numbers.drop_last(), expected) {
            Err(WorkerErrorView::TargetMissing) => match numbers.last() {
                Err(cause) => Err(
                    WorkerErrorView::Platform("UDisks2 operation failed: "@ + cause@),
                ),
                Ok(number) => if devices::decoded_device(number) == expected {
                    Ok(numbers.len() - 1)
                } else {
                    Err(WorkerErrorView::TargetMissing)
                },
            },
            settled => settled,
        }
    }
}

proof fn settled_position_stays(
    numbers: Seq<Result<u64, String>>,
    expected: DeviceNumber,
    upto: int,
)
    requires
        0 <= upto <= numbers.len(),
        block_position(numbers.take(upto), expected) != Err::<int, WorkerErrorView>(
            WorkerErrorView::TargetMissing,
        ),
    ensures
        block_position(numbers, expected) == block_position(numbers.take(upto), expected),
    decreases numbers.len() - upto,
{
    if upto < numbers.len() {
        assert(numbers.take(upto + 1).drop_last() =~= numbers.take(upto));
        settled_position_stays(numbers, expected, upto + 1);
    } else {
        assert(numbers.take(upto) =~= numbers);
    }
}

/// Find the block device with the expected number among those that the disk service reports.
pub fn block_object(numbers: &Vec<Result<u64, String>>, expected: DeviceNumber) -> (result: Result<
    usize,
    WorkerError,
>)
    ensures
        match result {
            Ok(position) => block_position(numbers@, expected) == Ok::<int, WorkerErrorView>(
                position as int,
            ) && position < numbers@.len(),
            Err(error) => block_position(numbers@, expected) == Err::<int, WorkerErrorView>(
                error@,
            ),
        },
{
    let mut index: usize = 0;
    assert(numbers@.take(0) =~= Seq::empty());
    while index < numbers.len()
        invariant
            index <= numbers@.len(),
            block_position(numbers@.take(index as int), expected) == Err::<int, WorkerErrorView>(
                WorkerErrorView::TargetMissing,
            ),
        decreases numbers@.len() - index,
    {
        let ghost upto = numbers@.take(index as int + 1);
        assert(upto.drop_last() =~= numbers@.take(index as int));
        match &numbers[index] {
            Err(cause) => {
                proof {
                    settled_position_stays(numbers@, expected, index as int + 1);
                }
                return Err(udisks_error(cause.as_str()));
            },
            Ok(number) => {
                if decode_linux_device(*number) == expected {
                    proof {
                        settled_position_stays(numbers@, expected, index as int + 1);
                    }
                    return Ok(index);
                }
            },
        }
        index += 1;
    }
    assert(numbers@.take(numbers@.len() as int) =~= numbers@);
    Err(WorkerError::TargetMissing)
}

// ---------------------------------------------------------------------------------------------
// Opening
// ---------------------------------------------------------------------------------------------

/// What is done with the target.
#[derive(Clone, Copy, Debug, PartialEq, Eq, Structural)]
pub enum TargetOperation {
    /// It is opened for writing.
    Open,
    /// It is made ready for reading it back.
    Prepare,
}

/// One step of an operation.
#[derive(Clone, Copy, Debug, PartialEq, Eq, Structural)]
pub enum TargetStep {
    /// Validate the target: it has to be the selected one.
    Validate,
    /// Read the device number of the target.
    ReadNumber,
    /// Read the device number again: it has to be the same.
    ReadNumberAgain,
    /// Open the device with that number for reading and writing, with [`O_EXCL`] and [`O_SYNC`].
    OpenWriter,
    /// Open the device with that number for reading, with [`O_EXCL`] and [`O_DIRECT`].
    OpenDirect,
    /// Look at the opened file: it has to be the device with that number.
    CheckOpened,
    /// Write what was written through to the medium.
    SyncWriter,
    /// Close the file that was written.
    CloseWriter,
    /// Make a reader for the opened device.
    CreateReader,
}

/// The steps of an operation. Every open stands between two validations of the target.
pub open spec fn steps(operation: TargetOperation) -> Seq<TargetStep> {
    match operation {
        TargetOperation::Open => seq![
            TargetStep::Validate,
            TargetStep::ReadNumber,
            TargetStep::OpenWriter,
            TargetStep::CheckOpened,
            TargetStep::CheckOpened,
            TargetStep::Validate,
            TargetStep::ReadNumberAgain,
            TargetStep::CheckOpened,
        ],
        TargetOperation::Prepare => seq![
            TargetStep::Validate,
            TargetStep::SyncWriter,
            TargetStep::CloseWriter,
            TargetStep::ReadNumber,
            TargetStep::OpenDirect,
            TargetStep::CheckOpened,
            TargetStep::CreateReader,
            TargetStep::Validate,
        ],
    }
}

/// What a step came to.
#[derive(Debug)]
pub enum TargetEvent {
    /// The target was validated.
    Target(Result<WorkerDrive, WorkerError>),
    /// The device number was read.
    Number(AttributeRead),
    /// The disk service was asked for the device.
    Opened(Result<(), WorkerError>),
    /// The opened file was looked at.
    Looked(Result<NodeFacts, String>),
    /// Something else was done.
    Done(Result<(), String>),
}

impl TargetStep {
    /// Whether an event answers the step.
    pub open spec fn expects(self, event: TargetEvent) -> bool {
        match self {
            TargetStep::Validate => event is Target,
            TargetStep::ReadNumber | TargetStep::ReadNumberAgain => event is Number,
            TargetStep::OpenWriter | TargetStep::OpenDirect => event is Opened,
            TargetStep::CheckOpened => event is Looked,
            _ => event is Done,
        }
    }
}

/// Why a step is not passed. `expected` is the device number that was read.
pub open spec fn step_fault(
    selected: WorkerDriveView,
    step: TargetStep,
    expected: DeviceNumber,
    event: TargetEvent,
) -> Option<WorkerErrorView> {
    match event {
        TargetEvent::Target(Err(error)) => Some(error@),
        TargetEvent::Target(Ok(drive)) => if drive@ == selected {
            None
        } else {
            Some(WorkerErrorView::TargetChanged)
        },
        TargetEvent::Number(read) => match devices::number_attribute(read) {
            Err(fault) => Some(fault),
            Ok(number) => if step == TargetStep::ReadNumberAgain && number != expected {
                Some(WorkerErrorView::TargetChanged)
            } else {
                None
            },
        },
        TargetEvent::Opened(Err(error)) => Some(error@),
        TargetEvent::Opened(Ok(_)) => None,
        TargetEvent::Looked(look) => devices::opened_node_fault(look, expected),
        TargetEvent::Done(Err(cause)) => Some(WorkerErrorView::Flash(FlashError::Io(cause))),
        TargetEvent::Done(Ok(_)) => None,
    }
}

/// What to do next.
#[derive(Debug)]
pub enum TargetAction {
    /// Make this step; where it opens the device, the one with this number.
    Step(TargetStep, DeviceNumber),
    /// All steps were made.
    Finish,
    /// Report the error.
    Fail(WorkerError),
}

/// What a [`TargetAction`] holds.
pub enum TargetActionView {
    Step(TargetStep, DeviceNumber),
    Finish,
    Fail(WorkerErrorView),
}

impl View for TargetAction {
    type V = TargetActionView;

    open spec fn view(&self) -> TargetActionView {
        match *self {
            TargetAction::Step(step, expected) => TargetActionView::Step(step, expected),
            TargetAction::Finish => TargetActionView::Finish,
            TargetAction::Fail(error) => TargetActionView::Fail(error@),
        }
    }
}

/// The state of an operation.
pub struct TargetState {
    pub operation: TargetOperation,
    pub selected: WorkerDriveView,
    /// How many steps were passed.
    pub passed: nat,
    /// The device number that was read.
    pub expected: DeviceNumber,
    /// Whether a step was not passed.
    pub failed: bool,
}

impl TargetState {
    /// The steps of the operation.
    pub open spec fn steps(self) -> Seq<TargetStep> {
        steps(self.operation)
    }

    /// Whether the event answers the step that is due.
    pub open spec fn expects(self, event: TargetEvent) -> bool {
        !self.failed && self.passed < self.steps().len() && self.steps()[self.passed as int].expects(
            event,
        )
    }

    /// The step that is due, or the end. The device number can only be read of a target whose
    /// identifier names a device.
    pub open spec fn next(self) -> (TargetState, TargetActionView) {
        if self.passed >= self.steps().len() {
            (self, TargetActionView::Finish)
        } else if self.steps()[self.passed as int] == TargetStep::ReadNumber
            && linux::split_identifier(self.selected.id) is None {
            (
                TargetState { failed: true, ..self },
                TargetActionView::Fail(WorkerErrorView::UnsafeTarget),
            )
        } else {
            (self, TargetActionView::Step(self.steps()[self.passed as int], self.expected))
        }
    }

    /// What follows on an event.
    pub open spec fn step(self, event: TargetEvent) -> (TargetState, TargetActionView) {
        let due = self.steps()[self.passed as int];
        match step_fault(self.selected, due, self.expected, event) {
            Some(fault) => (
                TargetState { failed: true, ..self },
                TargetActionView::Fail(fault),
            ),
            None => TargetState {
                passed: self.passed + 1,
                expected: match event {
                    TargetEvent::Number(read) => devices::number_attribute(read)->Ok_0,
                    _ => self.expected,
                },
                ..self
            }.next(),
        }
    }
}

/// How an operation begins.
pub open spec fn operation_start(operation: TargetOperation, selected: WorkerDriveView) ->
    TargetState {
    TargetState {
        operation,
        selected,
        passed: 0,
        expected: DeviceNumber { major: 0, minor: 0 },
        failed: false,
    }
}

/// Runs an operation on the selected target.
pub struct TargetRun<'a> {
    operation: TargetOperation,
    selected: &'a WorkerDrive,
    passed: usize,
    expected: DeviceNumber,
    failed: bool,
}

impl<'a> View for TargetRun<'a> {
    type V = TargetState;

    closed spec fn view(&self) -> TargetState {
        TargetState {
            operation: self.operation,
            selected: self.selected@,
            passed: self.passed as nat,
            expected: self.expected,
            failed: self.failed,
        }
    }
}

fn due_step(operation: TargetOperation, passed: usize) -> (step: Option<TargetStep>)
    ensures
        match step {
            Some(step) => passed < steps(operation).len() && steps(operation)[passed as int]
                == step,
            None => passed >= steps(operation).len(),
        },
{
    match operation {
        TargetOperation::Open => match passed {
            0 | 5 => Some(TargetStep::Validate),
            1 => Some(TargetStep::ReadNumber),
            2 => Some(TargetStep::OpenWriter),
            3 | 4 | 7 => Some(TargetStep::CheckOpened),
            6 => Some(TargetStep::ReadNumberAgain),
            _ => None,
        },
        TargetOperation::Prepare => match passed {
            0 | 7 => Some(TargetStep::Validate),
            1 => Some(TargetStep::SyncWriter),
            2 => Some(TargetStep::CloseWriter),
            3 => Some(TargetStep::ReadNumber),
            4 => Some(TargetStep::OpenDirect),
            5 => Some(TargetStep::CheckOpened),
            6 => Some(TargetStep::CreateReader),
            _ => None,
        },
    }
}

impl<'a> TargetRun<'a> {
    /// Begin an operation.
    pub fn start(operation: TargetOperation, selected: &'a WorkerDrive) -> (result: (
        TargetRun<'a>,
        TargetAction,
    ))
        ensures
            (result.0@, result.1@) == operation_start(operation, selected@).next(),
    {
        let mut run = TargetRun {
            operation,
            selected,
            passed: 0,
            expected: DeviceNumber { major: 0, minor: 0 },
            failed: false,
        };
        let action = run.next();
        (run, action)
    }

    fn next(&mut self) -> (action: TargetAction)
        ensures
            (final(self)@, action@) == old(self)@.next(),
    {
        match due_step(self.operation, self.passed) {
            None => TargetAction::Finish,
            Some(step) => {
                if step == TargetStep::ReadNumber && split_stable_identifier(
                    self.selected.id.as_str(),
                ).is_none() {
                    self.failed = true;
                    return TargetAction::Fail(WorkerError::UnsafeTarget);
                }
                TargetAction::Step(step, self.expected)
            },
        }
    }

    fn fail(&mut self, error: WorkerError) -> (action: TargetAction)
        ensures
            final(self)@ == (TargetState { failed: true, ..old(self)@ }),
            action@ == TargetActionView::Fail(error@),
    {
        self.failed = true;
        TargetAction::Fail(error)
    }

    fn pass(&mut self) -> (action: TargetAction)
        requires
            old(self)@.passed < old(self)@.steps().len(),
        ensures
            (final(self)@, action@) == (TargetState {
                passed: old(self)@.passed + 1,
                ..old(self)@
            }).next(),
    {
        self.passed = self.passed + 1;
        self.next()
    }

    fn after_number(&mut self, again: bool, read: &AttributeRead) -> (action: TargetAction)
        requires
            old(self)@.expects(TargetEvent::Number(*read)),
            again == (old(self)@.steps()[old(self)@.passed as int] == TargetStep::ReadNumberAgain),
        ensures
            (final(self)@, action@) == old(self)@.step(TargetEvent::Number(*read)),
    {
        match read_device_number(read) {
            Err(error) => self.fail(error),
            Ok(number) => {
                if again && number != self.expected {
                    return self.fail(WorkerError::TargetChanged);
                }
                self.expected = number;
                self.pass()
            },
        }
    }

    /// What to do next after a step was made.
    pub fn step(&mut self, event: &TargetEvent) -> (action: TargetAction)
        requires
            old(self)@.expects(*event),
        ensures
            (final(self)@, action@) == old(self)@.step(*event),
    {
        match event {
            TargetEvent::Target(Err(error)) => self.fail(error.copy()),
            TargetEvent::Target(Ok(drive)) => match compare_drive(self.selected, drive) {
                Err(error) => self.fail(error),
                Ok(()) => self.pass(),
            },
            TargetEvent::Number(read) => {
                let again = match due_step(self.operation, self.passed) {
                    Some(step) => step == TargetStep::ReadNumberAgain,
                    None => false,
                };
                self.after_number(again, read)
            },
            TargetEvent::Opened(Err(error)) => self.fail(error.copy()),
            TargetEvent::Opened(Ok(())) => self.pass(),
            TargetEvent::Looked(look) => match validate_opened_device(look, self.expected) {
                Err(error) => self.fail(error),
                Ok(()) => self.pass(),
            },
            TargetEvent::Done(Err(cause)) => self.fail(
                WorkerError::Flash(FlashError::Io(cause.clone())),
            ),
            TargetEvent::Done(Ok(())) => self.pass(),
        }
    }
}

// ---------------------------------------------------------------------------------------------
// What holds of a whole operation
// ---------------------------------------------------------------------------------------------

/// The state after a run of events.
pub open spec fn target_after(start: TargetState, events: Seq<TargetEvent>) -> TargetState
    decreases events.len(),
{
    if events.len() == 0 {
        start
    } else {
        target_after(start, events.drop_last()).step(events.last()).0
    }
}

/// Whether every event of the run answers the step that was due.
pub open spec fn target_accepts(start: TargetState, events: Seq<TargetEvent>) -> bool
    decreases events.len(),
{
    events.len() == 0 || (target_accepts(start, events.drop_last()) && target_after(
        start,
        events.drop_last(),
    ).expects(events.last()))
}

proof fn steps_are_passed_in_order(start: TargetState, events: Seq<TargetEvent>)
    requires
        start.passed == 0,
        target_accepts(start, events),
        !target_after(start, events).failed,
    ensures
        ({
            let after = target_after(start, events);
            after == (TargetState { passed: events.len(), expected: after.expected, ..start })
        }),
        forall|i: int| #![trigger events[i]]
            0 <= i < events.len() ==> step_fault(
                start.selected,
                steps(start.operation)[i],
                target_after(start, events.take(i)).expected,
                events[i],
            ) is None,
    decreases events.len(),
{
    if events.len() > 0 {
        let head = events.drop_last();
        steps_are_passed_in_order(start, head);
        assert forall|i: int| #![trigger events[i]] 0 <= i < events.len() implies step_fault(
            start.selected,
            steps(start.operation)[i],
            target_after(start, events.take(i)).expected,
            events[i],
        ) is None by {
            if i < head.len() {
                assert(head[i] == events[i]);
                assert(head.take(i) =~= events.take(i));
            } else {
                assert(events.take(i) =~= head);
            }
        }
    }
}

/// An operation is finished only after each of its steps was passed in order: the target was found
/// to be the selected one before the device was opened and again while it was open, and what was
/// opened is the block device whose number the target had.
pub proof fn finished_operation_validated_its_target(
    start: TargetState,
    events: Seq<TargetEvent>,
    event: TargetEvent,
)
    requires
        start.passed == 0,
        target_accepts(start, events.push(event)),
        target_after(start, events).step(event).1 is Finish,
    ensures
        events.len() + 1 == steps(start.operation).len(),
        forall|i: int| #![trigger events.push(event)[i]]
            0 <= i <= events.len() ==> step_fault(
                start.selected,
                steps(start.operation)[i],
                target_after(start, events.push(event).take(i)).expected,
                events.push(event)[i],
            ) is None,
{
    let all = events.push(event);
    assert(all.drop_last() =~= events);
    let before = target_after(start, events);
    assert(target_after(start, all) == before.step(event).0);
    steps_are_passed_in_order(start, all);
    steps_are_passed_in_order(start, events);
}

/// The copy of the raw image is accepted exactly where it is a file of a user other than root, which
/// nobody else may access, and which has at most one name.
pub proof fn staged_image_is_private(look: Result<FileFacts, String>)
    ensures
        staged_fault(look) is None <==> (look matches Ok(facts) && facts.is_file && facts.uid != 0
            && facts.mode & 0o077 == 0 && facts.links <= 1),
        look matches Err(cause) ==> staged_fault(look) == Some(WorkerErrorView::Platform(cause@)),
{
}

/// A target is validated exactly where its identifier names a device at its own path, the kernel
/// describes that device with the identity that was selected, the node at the path is the block
/// device with the kernel's number, and the system uses neither it nor anything that depends on it.
#[verifier::spinoff_prover]
#[verifier::rlimit(60)]
pub proof fn unused_selected_target_is_validated(
    selected: WorkerDriveView,
    evidence: TargetEvidence,
)
    ensures
        validated(selected, evidence) is Ok <==> {
            &&& linux::split_identifier(selected.id) matches Some((name, diskseq))
            &&& selected.device == linux::device_path(name)
            &&& devices::current_drive(name, evidence.attributes) matches Ok(current)
            &&& current.identity() == selected
            &&& evidence.node matches Ok(facts)
            &&& !facts.is_symlink && facts.is_block_device
            &&& devices::decoded_device(facts.rdev) == current.device_number
            &&& evidence.related matches Ok(related)
            &&& use_fault(evidence, related@) is None
        },
{
}

/// A target is unused exactly where both lists of the kernel can be read, no mount on a dependent
/// device is outside the places for removable media, and no swap source is on one.
pub proof fn unused_target_is_neither_mounted_nor_swapped_to(
    evidence: TargetEvidence,
    related: Seq<DeviceNumber>,
)
    ensures
        use_fault(evidence, related) is None <==> {
            &&& evidence.mountinfo matches Ok(mountinfo)
            &&& mounts::listed_mounts(mountinfo@) matches Ok(listed)
            &&& forall|i: int|
                0 <= i < listed.len() && related.contains((#[trigger] listed[i]).device)
                    ==> mounts::is_removable_place(listed[i].path)
            &&& evidence.swaps matches Ok(swaps)
            &&& mounts::swap_fault(
                mounts::swap_records(text::lines(swaps@)),
                evidence.sources@,
                related,
            ) is None
        },
{
}

/// The device that is found at the disk service is the first with the expected number, and none
/// before it could not be read; there is one exactly where such a device is listed.
pub proof fn found_block_device_has_the_expected_number(
    numbers: Seq<Result<u64, String>>,
    expected: DeviceNumber,
)
    ensures
        block_position(numbers, expected) matches Ok(at) ==> {
            &&& 0 <= at < numbers.len()
            &&& numbers[at] matches Ok(number)
            &&& devices::decoded_device(number) == expected
            &&& forall|i: int|
                0 <= i < at ==> ((#[trigger] numbers[i]) matches Ok(other)
                    && devices::decoded_device(other) != expected)
        },
        block_position(numbers, expected) == Err::<int, WorkerErrorView>(
            WorkerErrorView::TargetMissing,
        ) <==> forall|i: int|
            0 <= i < numbers.len() ==> ((#[trigger] numbers[i]) matches Ok(other)
                && devices::decoded_device(other) != expected),
        block_position(numbers, expected) matches Err(fault) ==> fault is TargetMissing
            || fault is Platform,
    decreases numbers.len(),
{
    if numbers.len() > 0 {
        let front = numbers.drop_last();
        found_block_device_has_the_expected_number(front, expected);
        let last = numbers.len() - 1;
        assert(numbers[last] == numbers.last());
        assert forall|i: int| 0 <= i < last implies #[trigger] numbers[i] == front[i] by {}
        match block_position(front, expected) {
            Ok(at) => {
                assert(front[at] == numbers[at]);
            },
            Err(fault) => {
                if fault is TargetMissing {
                    assert forall|i: int| 0 <= i < last implies ((#[trigger] numbers[i]) matches Ok(
                        other,
                    ) && devices::decoded_device(other) != expected) by {
                        assert(front[i] == numbers[i]);
                    }
                } else if forall|i: int|
                    0 <= i < numbers.len() ==> ((#[trigger] numbers[i]) matches Ok(other)
                        && devices::decoded_device(other) != expected) {
                    assert forall|i: int| 0 <= i < front.len() implies ((
                    #[trigger] front[i]) matches Ok(other) && devices::decoded_device(other)
                        != expected) by {
                        assert(front[i] == numbers[i]);
                    }
                }
            },
        }
    }
}

/// Whether a step opens the device.
pub open spec fn opens_the_device(step: TargetStep) -> bool {
    step is OpenWriter || step is OpenDirect
}

/// Every open of the device stands between two validations of the target and behind the reading of
/// its number, and what was opened is looked at right after. The write opens the device for writing
/// and reads its number once more; the read-back opens it for reading only, after what was written
/// is on the medium and the writer is closed, and makes a reader of it.
pub proof fn opens_stand_between_validations(operation: TargetOperation, at: int)
    requires
        0 <= at < steps(operation).len(),
        opens_the_device(steps(operation)[at]),
    ensures
        ({
            let all = steps(operation);
            &&& all[0] is Validate
            &&& at + 1 < all.len() && all[at + 1] is CheckOpened
            &&& exists|i: int| 0 <= i < at && (#[trigger] all[i]) is ReadNumber
            &&& exists|i: int| at < i < all.len() && (#[trigger] all[i]) is Validate
            &&& operation is Open ==> {
                &&& all[at] is OpenWriter
                &&& exists|i: int| at < i < all.len() && (#[trigger] all[i]) is ReadNumberAgain
                &&& all.last() is CheckOpened
            }
            &&& operation is Prepare ==> {
                &&& all[at] is OpenDirect
                &&& exists|i: int|
                    0 < i < at - 1 && (#[trigger] all[i]) is SyncWriter && all[i
                        + 1] is CloseWriter
                &&& exists|i: int| at < i < all.len() && (#[trigger] all[i]) is CreateReader
            }
        }),
{
    let all = steps(operation);
    if operation is Open {
        assert(all[1] is ReadNumber && all[5] is Validate && all[6] is ReadNumberAgain);
    } else {
        assert(all[3] is ReadNumber && all[7] is Validate && all[1] is SyncWriter && all[2]
            is CloseWriter && all[6] is CreateReader);
    }
}

/// Each operation opens the device: for writing, or for reading it back.
pub proof fn each_operation_opens_the_device(operation: TargetOperation)
    ensures
        exists|i: int| 0 <= i < steps(operation).len() && opens_the_device(
            #[trigger] steps(operation)[i],
        ),
{
    if operation is Open {
        assert(opens_the_device(steps(operation)[2]));
    } else {
        assert(opens_the_device(steps(operation)[4]));
    }
}

/// A step is passed exactly where the target is the selected one, the number can be read, and is the
/// same where it was read before, what was opened is the block device with that number, and nothing
/// else failed. A passed step leads to the next one, with the number that was read, and the last
/// one to the end; a step that is not passed ends the operation with its fault.
pub proof fn passed_step_leads_to_the_next(state: TargetState, event: TargetEvent)
    requires
        state.expects(event),
        linux::split_identifier(state.selected.id) is Some,
    ensures
        ({
            let due = state.steps()[state.passed as int];
            let (after, action) = state.step(event);
            let passes = match event {
                TargetEvent::Target(result) => result matches Ok(drive) && drive@
                    == state.selected,
                TargetEvent::Number(read) => devices::number_attribute(read) matches Ok(number)
                    && (due is ReadNumberAgain ==> number == state.expected),
                TargetEvent::Opened(result) => result is Ok,
                TargetEvent::Looked(look) => look matches Ok(facts) && facts.is_block_device
                    && devices::decoded_device(facts.rdev) == state.expected,
                TargetEvent::Done(result) => result is Ok,
            };
            let expected = match event {
                TargetEvent::Number(read) => devices::number_attribute(read)->Ok_0,
                _ => state.expected,
            };
            &&& action is Fail <==> !passes
            &&& passes && state.passed + 1 == state.steps().len() ==> action is Finish
            &&& passes && state.passed + 1 < state.steps().len() ==> after.passed == state.passed
                + 1 && after.expected == expected && action == TargetActionView::Step(
                state.steps()[state.passed + 1int],
                expected,
            )
            &&& event matches TargetEvent::Target(Err(error)) ==> action
                == TargetActionView::Fail(error@)
            &&& event matches TargetEvent::Opened(Err(error)) ==> action
                == TargetActionView::Fail(error@)
            &&& event matches TargetEvent::Done(Err(cause)) ==> action == TargetActionView::Fail(
                WorkerErrorView::Flash(FlashError::Io(cause)),
            )
        }),
{
}

} // verus!
