//! Unmounting everything on the selected target, and ejecting it.

use vstd::prelude::*;
use vstd::string::*;

use crate::drives::linux;
use crate::drives::linux::split_stable_identifier;
use crate::text::{join2, join3};
use crate::worker::linux::devices;
use crate::worker::linux::devices::{read_device_number, AttributeRead, DeviceNumber};
use crate::worker::linux::mounts;
use crate::worker::linux::mounts::{mounted_paths, parse_mountinfo, select_mounts};
use crate::worker::linux::order;
use crate::worker::linux::order::unmount_order;
use crate::worker::linux::related::copy_numbers;
use crate::worker::{
    compare_drive, WorkerDrive, WorkerDriveView, WorkerError, WorkerErrorView,
};

verus! {

broadcast use vstd::seq_lib::group_seq_properties;

/// What was done.
#[derive(Debug)]
pub enum UnmountEvent {
    /// The target was validated.
    Target(Result<WorkerDrive, WorkerError>),
    /// The devices that depend on the target were collected.
    Related(Result<Vec<DeviceNumber>, WorkerError>),
    /// The kernel's list of mounts was read.
    Mountinfo(Result<String, String>),
    /// The disk service was asked to unmount a device.
    Unmounted(Result<(), WorkerError>),
}

/// What to do next.
#[derive(Debug)]
pub enum UnmountAction {
    /// Validate the target.
    Validate,
    /// Collect the devices that depend on the target.
    CollectRelated,
    /// Read the kernel's list of mounts.
    ReadMountinfo,
    /// Ask the disk service to unmount the device with this number.
    Unmount(DeviceNumber),
    /// Nothing on the target is mounted any more.
    Finish,
    /// Report the error.
    Fail(WorkerError),
}

/// What an [`UnmountAction`] holds.
pub enum UnmountActionView {
    Validate,
    CollectRelated,
    ReadMountinfo,
    Unmount(DeviceNumber),
    Finish,
    Fail(WorkerErrorView),
}

impl View for UnmountAction {
    type V = UnmountActionView;

    open spec fn view(&self) -> UnmountActionView {
        match *self {
            UnmountAction::Validate => UnmountActionView::Validate,
            UnmountAction::CollectRelated => UnmountActionView::CollectRelated,
            UnmountAction::ReadMountinfo => UnmountActionView::ReadMountinfo,
            UnmountAction::Unmount(device) => UnmountActionView::Unmount(device),
            UnmountAction::Finish => UnmountActionView::Finish,
            UnmountAction::Fail(error) => UnmountActionView::Fail(error@),
        }
    }
}

/// What the unmounting waits for.
#[derive(Clone, Copy, Debug, PartialEq, Eq, Structural)]
pub enum UnmountPhase {
    /// The first validation.
    First,
    Collecting,
    /// The validation after the dependent devices were collected.
    Collected,
    Listing,
    /// The validation before the next device is unmounted.
    Next,
    Unmounting,
    /// The validation after everything was unmounted.
    Last,
    /// The list of mounts is read once more.
    Checking,
    Closed,
}

/// The state of an unmounting.
pub struct UnmountState {
    pub selected: WorkerDriveView,
    pub phase: UnmountPhase,
    /// The devices that depend on the target.
    pub devices: Seq<DeviceNumber>,
    /// Those that are still to be unmounted, in their order.
    pub queue: Seq<DeviceNumber>,
}

impl UnmountState {
    /// Whether the event answers what the unmounting waits for.
    pub open spec fn expects(self, event: UnmountEvent) -> bool {
        match self.phase {
            UnmountPhase::First
            | UnmountPhase::Collected
            | UnmountPhase::Next
            | UnmountPhase::Last => event is Target,
            UnmountPhase::Collecting => event is Related,
            UnmountPhase::Listing | UnmountPhase::Checking => event is Mountinfo,
            UnmountPhase::Unmounting => event is Unmounted,
            UnmountPhase::Closed => false,
        }
    }

    /// The next phase, with what it waits for.
    pub open spec fn go(self, phase: UnmountPhase, action: UnmountActionView) -> (
        UnmountState,
        UnmountActionView,
    ) {
        (UnmountState { phase, ..self }, action)
    }

    /// The unmounting gives up.
    pub open spec fn fail(self, fault: WorkerErrorView) -> (UnmountState, UnmountActionView) {
        self.go(UnmountPhase::Closed, UnmountActionView::Fail(fault))
    }

    /// The validation before the next device, or after the last one.
    pub open spec fn next(self) -> (UnmountState, UnmountActionView) {
        if self.queue.len() > 0 {
            self.go(UnmountPhase::Next, UnmountActionView::Validate)
        } else {
            self.go(UnmountPhase::Last, UnmountActionView::Validate)
        }
    }

    /// What follows on a validation that found the selected target.
    pub open spec fn after_match(self) -> (UnmountState, UnmountActionView) {
        match self.phase {
            UnmountPhase::First => self.go(
                UnmountPhase::Collecting,
                UnmountActionView::CollectRelated,
            ),
            UnmountPhase::Collected => self.go(
                UnmountPhase::Listing,
                UnmountActionView::ReadMountinfo,
            ),
            UnmountPhase::Next => UnmountState {
                queue: self.queue.subrange(1, self.queue.len() as int),
                ..self
            }.go(UnmountPhase::Unmounting, UnmountActionView::Unmount(self.queue[0])),
            _ => self.go(UnmountPhase::Checking, UnmountActionView::ReadMountinfo),
        }
    }

    /// What follows on a list of mounts.
    pub open spec fn after_list(self, mountinfo: Seq<char>) -> (UnmountState, UnmountActionView) {
        match mounts::listed_mounts(mountinfo) {
            Err(fault) => self.fail(fault),
            Ok(listed) => {
                let own = mounts::mounts_on(listed, self.devices);
                if self.phase == UnmountPhase::Listing {
                    UnmountState {
                        queue: order::devices_in_order(order::deepest_first(own)),
                        ..self
                    }.next()
                } else if own.len() > 0 {
                    self.fail(
                        WorkerErrorView::Platform(
                            "one or more target volumes remained mounted"@,
                        ),
                    )
                } else {
                    self.go(UnmountPhase::Closed, UnmountActionView::Finish)
                }
            },
        }
    }

    /// What follows on an event.
    pub open spec fn step(self, event: UnmountEvent) -> (UnmountState, UnmountActionView) {
        match event {
            UnmountEvent::Target(Err(error)) => self.fail(error@),
            UnmountEvent::Target(Ok(drive)) => if drive@ == self.selected {
                self.after_match()
            } else {
                self.fail(WorkerErrorView::TargetChanged)
            },
            UnmountEvent::Related(Err(error)) => self.fail(error@),
            UnmountEvent::Related(Ok(devices)) => UnmountState { devices: devices@, ..self }.go(
                UnmountPhase::Collected,
                UnmountActionView::Validate,
            ),
            UnmountEvent::Mountinfo(Err(cause)) => self.fail(WorkerErrorView::Platform(cause@)),
            UnmountEvent::Mountinfo(Ok(mountinfo)) => self.after_list(mountinfo@),
            UnmountEvent::Unmounted(Err(error)) => self.fail(error@),
            UnmountEvent::Unmounted(Ok(_)) => self.next(),
        }
    }
}

/// How an unmounting begins. The identifier of the target has to name a device.
pub open spec fn unmount_start(selected: WorkerDriveView) -> UnmountState {
    UnmountState {
        selected,
        phase: UnmountPhase::First,
        devices: Seq::empty(),
        queue: Seq::empty(),
    }
}

/// Unmounts everything on the selected target.
pub struct Unmounting<'a> {
    selected: &'a WorkerDrive,
    phase: UnmountPhase,
    devices: Vec<DeviceNumber>,
    order: Vec<DeviceNumber>,
    /// How many devices of the order have been unmounted or are being so.
    taken: usize,
}

impl<'a> View for Unmounting<'a> {
    type V = UnmountState;

    closed spec fn view(&self) -> UnmountState {
        UnmountState {
            selected: self.selected@,
            phase: self.phase,
            devices: self.devices@,
            queue: self.order@.subrange(self.taken as int, self.order@.len() as int),
        }
    }
}

impl<'a> Unmounting<'a> {
    /// Whether the place in the order is one, and a device is left where one is due.
    pub closed spec fn well_formed(self) -> bool {
        &&& self.taken <= self.order@.len()
        &&& self.phase == UnmountPhase::Next ==> self.taken < self.order@.len()
    }

    /// Begin to unmount.
    pub fn start(selected: &'a WorkerDrive) -> (result: (Unmounting<'a>, UnmountAction))
        ensures
            result.0.well_formed(),
            result.0@ == unmount_start(selected@),
            result.1@ == UnmountActionView::Validate,
    {
        let run = Unmounting {
            selected,
            phase: UnmountPhase::First,
            devices: Vec::new(),
            order: Vec::new(),
            taken: 0,
        };
        assert(run@.queue =~= Seq::empty());
        (run, UnmountAction::Validate)
    }

    fn go(&mut self, phase: UnmountPhase, action: UnmountAction) -> (result: UnmountAction)
        requires
            old(self).well_formed(),
            phase != UnmountPhase::Next || old(self)@.queue.len() > 0,
        ensures
            final(self).well_formed(),
            (final(self)@, result@) == old(self)@.go(phase, action@),
    {
        self.phase = phase;
        action
    }

    fn fail(&mut self, error: WorkerError) -> (action: UnmountAction)
        requires
            old(self).well_formed(),
        ensures
            final(self).well_formed(),
            (final(self)@, action@) == old(self)@.fail(error@),
    {
        self.go(UnmountPhase::Closed, UnmountAction::Fail(error))
    }

    fn next(&mut self) -> (action: UnmountAction)
        requires
            old(self).well_formed(),
        ensures
            final(self).well_formed(),
            (final(self)@, action@) == old(self)@.next(),
    {
        if self.taken < self.order.len() {
            self.go(UnmountPhase::Next, UnmountAction::Validate)
        } else {
            self.go(UnmountPhase::Last, UnmountAction::Validate)
        }
    }

    fn after_match(&mut self) -> (action: UnmountAction)
        requires
            old(self).well_formed(),
            old(self).phase == UnmountPhase::First || old(self).phase == UnmountPhase::Collected
                || old(self).phase == UnmountPhase::Next || old(self).phase == UnmountPhase::Last,
        ensures
            final(self).well_formed(),
            (final(self)@, action@) == old(self)@.after_match(),
    {
        match self.phase {
            UnmountPhase::First => self.go(UnmountPhase::Collecting, UnmountAction::CollectRelated),
            UnmountPhase::Collected => self.go(
                UnmountPhase::Listing,
                UnmountAction::ReadMountinfo,
            ),
            UnmountPhase::Next => {
                let device: DeviceNumber = self.order[self.taken];
                let ghost before = self@.queue;
                assert(before[0] == device);
                let count: usize = self.order.len();
                assert(self.taken < count);
                self.taken = self.taken + 1;
                self.phase = UnmountPhase::Unmounting;
                assert(self@.queue =~= before.subrange(1, before.len() as int));
                UnmountAction::Unmount(device)
            },
            _ => self.go(UnmountPhase::Checking, UnmountAction::ReadMountinfo),
        }
    }

    fn plan(&mut self, mountinfo: &str) -> (action: UnmountAction)
        requires
            old(self).well_formed(),
            old(self).phase == UnmountPhase::Listing,
        ensures
            final(self).well_formed(),
            (final(self)@, action@) == old(self)@.after_list(mountinfo@),
    {
        match parse_mountinfo(mountinfo) {
            Err(error) => self.fail(error),
            Ok(listed) => {
                let own = select_mounts(listed, &self.devices);
                self.order = unmount_order(&own);
                self.taken = 0;
                assert(self@.queue =~= self.order@);
                self.next()
            },
        }
    }

    fn check(&mut self, mountinfo: &str) -> (action: UnmountAction)
        requires
            old(self).well_formed(),
            old(self).phase == UnmountPhase::Checking,
        ensures
            final(self).well_formed(),
            (final(self)@, action@) == old(self)@.after_list(mountinfo@),
    {
        match mounted_paths(mountinfo, &self.devices) {
            Err(error) => self.fail(error),
            Ok(paths) => {
                assert(mounts::byte_views(paths@).len() == paths@.len());
                if paths.len() > 0 {
                    return self.fail(
                        WorkerError::Platform(
                            "one or more target volumes remained mounted".to_owned(),
                        ),
                    );
                }
                self.go(UnmountPhase::Closed, UnmountAction::Finish)
            },
        }
    }

    /// What to do next after something was done.
    pub fn step(&mut self, event: &UnmountEvent) -> (action: UnmountAction)
        requires
            old(self).well_formed(),
            old(self)@.expects(*event),
        ensures
            final(self).well_formed(),
            (final(self)@, action@) == old(self)@.step(*event),
    {
        match event {
            UnmountEvent::Target(Err(error)) => self.fail(error.copy()),
            UnmountEvent::Target(Ok(drive)) => match compare_drive(self.selected, drive) {
                Err(error) => self.fail(error),
                Ok(()) => self.after_match(),
            },
            UnmountEvent::Related(Err(error)) => self.fail(error.copy()),
            UnmountEvent::Related(Ok(devices)) => {
                self.devices = copy_numbers(devices);
                self.go(UnmountPhase::Collected, UnmountAction::Validate)
            },
            UnmountEvent::Mountinfo(Err(cause)) => self.fail(WorkerError::Platform(cause.clone())),
            UnmountEvent::Mountinfo(Ok(mountinfo)) => {
                if self.phase == UnmountPhase::Listing {
                    self.plan(mountinfo.as_str())
                } else {
                    self.check(mountinfo.as_str())
                }
            },
            UnmountEvent::Unmounted(Err(error)) => self.fail(error.copy()),
            UnmountEvent::Unmounted(Ok(())) => self.next(),
        }
    }
}

/// Unmounting succeeds only on a list of mounts that names neither the target nor anything that
/// depends on it.
pub proof fn unmounted_target_has_no_mounts(state: UnmountState, event: UnmountEvent)
    requires
        state.expects(event),
        state.step(event).1 is Finish,
    ensures
        state.phase == UnmountPhase::Checking,
        event matches UnmountEvent::Mountinfo(Ok(mountinfo)) && (mounts::listed_mounts(
            mountinfo@,
        ) matches Ok(listed) && mounts::mounts_on(listed, state.devices).len() == 0),
{
}

/// A device is unmounted only right after the target was found to be the selected one.
pub proof fn unmounting_follows_validation(state: UnmountState, event: UnmountEvent)
    requires
        state.expects(event),
        state.step(event).1 is Unmount,
    ensures
        event matches UnmountEvent::Target(Ok(drive)) && drive@ == state.selected,
{
}

// ---------------------------------------------------------------------------------------------
// Ejecting
// ---------------------------------------------------------------------------------------------

/// What was done.
#[derive(Debug)]
pub enum EjectEvent {
    /// Everything on the target was unmounted.
    Unmounted(Result<(), WorkerError>),
    /// The target was validated.
    Target(Result<WorkerDrive, WorkerError>),
    /// The device number was read.
    Number(AttributeRead),
    /// The disk service did its part.
    Service(Result<(), WorkerError>),
}

/// What to do next.
#[derive(Debug)]
pub enum EjectAction {
    /// Unmount everything on the target.
    Unmount,
    /// Validate the target.
    Validate,
    /// Read the device number of the target.
    ReadNumber,
    /// Find the drive of the device with this number at the disk service.
    FindDrive(DeviceNumber),
    /// Ask the disk service to power the drive off.
    PowerOff,
    /// Ask the disk service to eject the medium.
    EjectMedium,
    /// The medium can be removed.
    Finish,
    /// Report the error.
    Fail(WorkerError),
}

/// What an [`EjectAction`] holds.
pub enum EjectActionView {
    Unmount,
    Validate,
    ReadNumber,
    FindDrive(DeviceNumber),
    PowerOff,
    EjectMedium,
    Finish,
    Fail(WorkerErrorView),
}

impl View for EjectAction {
    type V = EjectActionView;

    open spec fn view(&self) -> EjectActionView {
        match *self {
            EjectAction::Unmount => EjectActionView::Unmount,
            EjectAction::Validate => EjectActionView::Validate,
            EjectAction::ReadNumber => EjectActionView::ReadNumber,
            EjectAction::FindDrive(device) => EjectActionView::FindDrive(device),
            EjectAction::PowerOff => EjectActionView::PowerOff,
            EjectAction::EjectMedium => EjectActionView::EjectMedium,
            EjectAction::Finish => EjectActionView::Finish,
            EjectAction::Fail(error) => EjectActionView::Fail(error@),
        }
    }
}

/// What the ejecting waits for.
#[derive(Debug)]
pub enum EjectPhase {
    Unmounting,
    Validating,
    Reading,
    Finding,
    PoweringOff,
    /// Powering off has failed, for this error.
    Ejecting(WorkerError),
    Closed,
}

/// What an [`EjectPhase`] holds.
pub enum EjectPhaseView {
    Unmounting,
    Validating,
    Reading,
    Finding,
    PoweringOff,
    Ejecting(WorkerErrorView),
    Closed,
}

impl View for EjectPhase {
    type V = EjectPhaseView;

    open spec fn view(&self) -> EjectPhaseView {
        match *self {
            EjectPhase::Unmounting => EjectPhaseView::Unmounting,
            EjectPhase::Validating => EjectPhaseView::Validating,
            EjectPhase::Reading => EjectPhaseView::Reading,
            EjectPhase::Finding => EjectPhaseView::Finding,
            EjectPhase::PoweringOff => EjectPhaseView::PoweringOff,
            EjectPhase::Ejecting(error) => EjectPhaseView::Ejecting(error@),
            EjectPhase::Closed => EjectPhaseView::Closed,
        }
    }
}

/// The error of a drive that can neither be powered off nor ejected.
pub open spec fn eject_fault(power: WorkerErrorView, eject: WorkerErrorView) -> WorkerErrorView {
    WorkerErrorView::Platform(
        "UDisks2 could neither power off nor eject the target: "@ + power.text() + "; "@
            + eject.text(),
    )
}

/// Whether the event answers what the ejecting waits for.
pub open spec fn eject_expects(phase: EjectPhaseView, event: EjectEvent) -> bool {
    match phase {
        EjectPhaseView::Unmounting => event is Unmounted,
        EjectPhaseView::Validating => event is Target,
        EjectPhaseView::Reading => event is Number,
        EjectPhaseView::Closed => false,
        _ => event is Service,
    }
}

/// What follows on an event.
pub open spec fn eject_step(
    selected: WorkerDriveView,
    phase: EjectPhaseView,
    event: EjectEvent,
) -> (EjectPhaseView, EjectActionView) {
    let failed = |fault: WorkerErrorView| (EjectPhaseView::Closed, EjectActionView::Fail(fault));
    match event {
        EjectEvent::Unmounted(Err(error)) => failed(error@),
        EjectEvent::Unmounted(Ok(_)) => (EjectPhaseView::Validating, EjectActionView::Validate),
        EjectEvent::Target(Err(error)) => failed(error@),
        EjectEvent::Target(Ok(drive)) => if drive@ != selected {
            failed(WorkerErrorView::TargetChanged)
        } else if linux::split_identifier(selected.id) is None {
            failed(WorkerErrorView::UnsafeTarget)
        } else {
            (EjectPhaseView::Reading, EjectActionView::ReadNumber)
        },
        EjectEvent::Number(read) => match devices::number_attribute(read) {
            Err(fault) => failed(fault),
            Ok(device) => (EjectPhaseView::Finding, EjectActionView::FindDrive(device)),
        },
        EjectEvent::Service(result) => match (phase, result) {
            (EjectPhaseView::Finding, Err(error)) => failed(error@),
            (EjectPhaseView::Finding, Ok(_)) => (
                EjectPhaseView::PoweringOff,
                EjectActionView::PowerOff,
            ),
            (EjectPhaseView::PoweringOff, Err(error)) => (
                EjectPhaseView::Ejecting(error@),
                EjectActionView::EjectMedium,
            ),
            (EjectPhaseView::Ejecting(power), Err(error)) => failed(eject_fault(power, error@)),
            _ => (EjectPhaseView::Closed, EjectActionView::Finish),
        },
    }
}

/// Ejects the selected target. A desktop may have mounted the new partitions as soon as the target
/// was closed, so everything is unmounted once more first.
pub struct Ejecting<'a> {
    selected: &'a WorkerDrive,
    phase: EjectPhase,
}

impl<'a> View for Ejecting<'a> {
    type V = (WorkerDriveView, EjectPhaseView);

    closed spec fn view(&self) -> (WorkerDriveView, EjectPhaseView) {
        (self.selected@, self.phase@)
    }
}

impl<'a> Ejecting<'a> {
    /// Begin to eject.
    pub fn start(selected: &'a WorkerDrive) -> (result: (Ejecting<'a>, EjectAction))
        ensures
            result.0@ == (selected@, EjectPhaseView::Unmounting),
            result.1@ == EjectActionView::Unmount,
    {
        (Ejecting { selected, phase: EjectPhase::Unmounting }, EjectAction::Unmount)
    }

    fn fail(&mut self, error: WorkerError) -> (action: EjectAction)
        ensures
            final(self)@ == (old(self)@.0, EjectPhaseView::Closed),
            action@ == EjectActionView::Fail(error@),
    {
        self.phase = EjectPhase::Closed;
        EjectAction::Fail(error)
    }

    fn after_service(&mut self, result: &Result<(), WorkerError>) -> (action: EjectAction)
        requires
            eject_expects(old(self)@.1, EjectEvent::Service(*result)),
        ensures
            final(self)@.0 == old(self)@.0,
            (final(self)@.1, action@) == eject_step(
                old(self)@.0,
                old(self)@.1,
                EjectEvent::Service(*result),
            ),
    {
        let mut phase = EjectPhase::Closed;
        core::mem::swap(&mut phase, &mut self.phase);
        match (phase, result) {
            (EjectPhase::Finding, Err(error)) => self.fail(error.copy()),
            (EjectPhase::Finding, Ok(())) => {
                self.phase = EjectPhase::PoweringOff;
                EjectAction::PowerOff
            },
            (EjectPhase::PoweringOff, Err(error)) => {
                self.phase = EjectPhase::Ejecting(error.copy());
                EjectAction::EjectMedium
            },
            (EjectPhase::Ejecting(power), Err(error)) => {
                let power = power.message();
                let eject = error.message();
                let start = join2(
                    "UDisks2 could neither power off nor eject the target: ",
                    power.as_str(),
                );
                self.fail(WorkerError::Platform(join3(start.as_str(), "; ", eject.as_str())))
            },
            _ => EjectAction::Finish,
        }
    }

    /// What to do next after something was done.
    pub fn step(&mut self, event: &EjectEvent) -> (action: EjectAction)
        requires
            eject_expects(old(self)@.1, *event),
        ensures
            final(self)@.0 == old(self)@.0,
            (final(self)@.1, action@) == eject_step(old(self)@.0, old(self)@.1, *event),
    {
        match event {
            EjectEvent::Unmounted(Err(error)) => self.fail(error.copy()),
            EjectEvent::Unmounted(Ok(())) => {
                self.phase = EjectPhase::Validating;
                EjectAction::Validate
            },
            EjectEvent::Target(Err(error)) => self.fail(error.copy()),
            EjectEvent::Target(Ok(drive)) => {
                match compare_drive(self.selected, drive) {
                    Err(error) => {
                        return self.fail(error);
                    },
                    Ok(()) => {},
                }
                if split_stable_identifier(self.selected.id.as_str()).is_none() {
                    return self.fail(WorkerError::UnsafeTarget);
                }
                self.phase = EjectPhase::Reading;
                EjectAction::ReadNumber
            },
            EjectEvent::Number(read) => match read_device_number(read) {
                Err(error) => self.fail(error),
                Ok(device) => {
                    self.phase = EjectPhase::Finding;
                    EjectAction::FindDrive(device)
                },
            },
            EjectEvent::Service(result) => self.after_service(result),
        }
    }
}

/// Whether an event is the selected target.
pub open spec fn is_selected(selected: WorkerDriveView, event: UnmountEvent) -> bool {
    event matches UnmountEvent::Target(Ok(drive)) && drive.id@ == selected.id && drive.device@
        == selected.device && drive.capacity == selected.capacity
}

/// An untroubled unmounting looks at the target, collects the devices that depend on it, looks at the
/// target again and reads the mounts; then every device with a mount among them is unmounted, once
/// each, and no other.
pub proof fn every_mounted_device_is_unmounted(
    state: UnmountState,
    first: UnmountEvent,
    related: Vec<DeviceNumber>,
    second: UnmountEvent,
    mountinfo: String,
    listed: Seq<mounts::MountView>,
)
    requires
        state.phase == UnmountPhase::First,
        is_selected(state.selected, first),
        is_selected(state.selected, second),
        mounts::listed_mounts(mountinfo@) == Ok::<Seq<mounts::MountView>, WorkerErrorView>(listed),
    ensures
        ({
            let (one, collects) = state.step(first);
            let (two, validates) = one.step(UnmountEvent::Related(Ok(related)));
            let (three, lists) = two.step(second);
            let (four, next) = three.step(UnmountEvent::Mountinfo(Ok(mountinfo)));
            &&& collects is CollectRelated
            &&& validates is Validate
            &&& lists is ReadMountinfo
            &&& next is Validate
            &&& four.devices == related@
            &&& four.queue.no_duplicates()
            &&& forall|device: DeviceNumber| #[trigger]
                four.queue.contains(device) <==> related@.contains(device) && exists|i: int|
                    0 <= i < listed.len() && (#[trigger] listed[i]).device == device
            &&& four.phase == (if four.queue.len() > 0 {
                UnmountPhase::Next
            } else {
                UnmountPhase::Last
            })
        }),
{
    let own = mounts::mounts_on(listed, related@);
    let sorted = order::deepest_first(own);
    mounts::mounts_on_devices_are_selected(listed, related@);
    order::deeper_mounts_come_first(own);
    order::each_mounted_device_is_named_once(sorted);
    let queue = order::devices_in_order(sorted);
    assert forall|device: DeviceNumber| #[trigger]
        queue.contains(device) <==> related@.contains(device) && exists|i: int|
            0 <= i < listed.len() && (#[trigger] listed[i]).device == device by {
        if queue.contains(device) {
            let at = choose|i: int| 0 <= i < sorted.len() && (#[trigger] sorted[i]).device == device;
            let mount = sorted[at];
            assert(sorted.to_multiset().count(mount) > 0) by {
                sorted.to_multiset_ensures();
                assert(sorted.contains(mount));
            }
            assert(own.contains(mount)) by {
                own.to_multiset_ensures();
            }
            let place = choose|i: int| 0 <= i < listed.len() && listed[i] == mount;
            assert(listed[place].device == device);
        }
        if related@.contains(device) && exists|i: int|
            0 <= i < listed.len() && (#[trigger] listed[i]).device == device {
            let place = choose|i: int|
                0 <= i < listed.len() && (#[trigger] listed[i]).device == device;
            let mount = listed[place];
            assert(listed.contains(mount));
            assert(own.contains(mount));
            assert(own.to_multiset().count(mount) > 0) by {
                own.to_multiset_ensures();
            }
            assert(sorted.contains(mount)) by {
                sorted.to_multiset_ensures();
            }
            let at = choose|i: int| 0 <= i < sorted.len() && sorted[i] == mount;
            assert(sorted[at].device == device);
        }
    }
}

/// The devices that are due are unmounted in their order, each after another look at the target, and
/// behind the last one the mounts are read once more; the unmounting succeeds exactly where nothing
/// on the target is among them.
pub proof fn due_devices_are_unmounted_in_order(
    state: UnmountState,
    target: UnmountEvent,
    mountinfo: String,
)
    requires
        is_selected(state.selected, target),
    ensures
        state.phase == UnmountPhase::Next && state.queue.len() > 0 ==> {
            let (unmounting, action) = state.step(target);
            let (after, next) = unmounting.step(UnmountEvent::Unmounted(Ok(())));
            &&& action == UnmountActionView::Unmount(state.queue[0])
            &&& after.queue == state.queue.subrange(1, state.queue.len() as int)
            &&& next is Validate
            &&& after.phase == (if state.queue.len() > 1 {
                UnmountPhase::Next
            } else {
                UnmountPhase::Last
            })
        },
        state.phase == UnmountPhase::Last ==> {
            let (checking, action) = state.step(target);
            let (after, last) = checking.step(UnmountEvent::Mountinfo(Ok(mountinfo)));
            &&& action is ReadMountinfo
            &&& last is Finish <==> (mounts::listed_mounts(mountinfo@) matches Ok(listed)
                && mounts::mounts_on(listed, state.devices).len() == 0)
            &&& !(last is Finish) ==> last is Fail
        },
{
}

/// An unmounting fails only for a reason, which the event that stopped it gives.
pub proof fn failed_unmounting_has_its_reason(state: UnmountState, event: UnmountEvent)
    requires
        state.expects(event),
    ensures
        state.step(event).1 matches UnmountActionView::Fail(fault) ==> match event {
            UnmountEvent::Target(Ok(drive)) => fault is TargetChanged && drive@ != state.selected,
            UnmountEvent::Target(Err(error)) => fault == error@,
            UnmountEvent::Related(result) => result matches Err(error) && fault == error@,
            UnmountEvent::Unmounted(result) => result matches Err(error) && fault == error@,
            UnmountEvent::Mountinfo(Err(cause)) => fault == WorkerErrorView::Platform(cause@),
            UnmountEvent::Mountinfo(Ok(mountinfo)) => match mounts::listed_mounts(mountinfo@) {
                Err(error) => fault == error,
                Ok(listed) => fault is Platform && state.phase == UnmountPhase::Checking
                    && mounts::mounts_on(listed, state.devices).len() > 0,
            },
        },
{
}

/// An untroubled ejecting unmounts everything once more, looks at the target, finds its drive by the
/// number that the kernel gives it, and powers it off; where that fails the medium is ejected
/// instead, and only if neither can be done has it failed, with both causes.
pub proof fn drive_is_powered_off_or_ejected(
    selected: WorkerDriveView,
    target: WorkerDrive,
    read: AttributeRead,
    number: DeviceNumber,
    power: Result<(), WorkerError>,
    eject: Result<(), WorkerError>,
)
    requires
        target@ == selected,
        linux::split_identifier(selected.id) is Some,
        devices::number_attribute(read) == Ok::<DeviceNumber, WorkerErrorView>(number),
    ensures
        ({
            let start = EjectPhaseView::Unmounting;
            let (one, validates) = eject_step(selected, start, EjectEvent::Unmounted(Ok(())));
            let (two, reads) = eject_step(selected, one, EjectEvent::Target(Ok(target)));
            let (three, finds) = eject_step(selected, two, EjectEvent::Number(read));
            let (four, powers) = eject_step(selected, three, EjectEvent::Service(Ok(())));
            let (five, next) = eject_step(selected, four, EjectEvent::Service(power));
            let (six, last) = eject_step(selected, five, EjectEvent::Service(eject));
            &&& validates is Validate
            &&& reads is ReadNumber
            &&& finds == EjectActionView::FindDrive(number)
            &&& powers is PowerOff
            &&& power is Ok ==> next is Finish
            &&& power matches Err(first) ==> {
                &&& next is EjectMedium
                &&& eject is Ok ==> last is Finish
                &&& eject matches Err(second) ==> last == EjectActionView::Fail(
                    WorkerErrorView::Platform(
                        "UDisks2 could neither power off nor eject the target: "@ + first@.text()
                            + "; "@ + second@.text(),
                    ),
                )
            }
        }),
{
}

/// An ejecting fails only for a reason: something before the disk service failed, the target is not
/// the selected one, or its drive can neither be powered off nor ejected.
pub proof fn failed_ejecting_has_its_reason(
    selected: WorkerDriveView,
    phase: EjectPhaseView,
    event: EjectEvent,
)
    requires
        eject_expects(phase, event),
    ensures
        eject_step(selected, phase, event).1 matches EjectActionView::Fail(fault) ==> match event {
            EjectEvent::Unmounted(result) => result matches Err(error) && fault == error@,
            EjectEvent::Target(Err(error)) => fault == error@,
            EjectEvent::Target(Ok(drive)) => (fault is TargetChanged && drive@ != selected) || (
            fault is UnsafeTarget && linux::split_identifier(selected.id) is None),
            EjectEvent::Number(read) => devices::number_attribute(read) == Err::<
                DeviceNumber,
                WorkerErrorView,
            >(fault),
            EjectEvent::Service(result) => result is Err && (phase is Finding || phase is Ejecting),
        },
{
}

/// Nothing that goes wrong is passed over while the target is unmounted: another target, a device that
/// cannot be unmounted, a list that cannot be read, and every other failure ends it with that failure.
pub proof fn trouble_ends_the_unmounting(state: UnmountState, event: UnmountEvent)
    requires
        state.expects(event),
    ensures
        event matches UnmountEvent::Target(Err(error)) ==> state.step(event).1
            == UnmountActionView::Fail(error@),
        event matches UnmountEvent::Target(Ok(drive)) ==> drive@ != state.selected ==> state.step(
            event,
        ).1 == UnmountActionView::Fail(WorkerErrorView::TargetChanged),
        event matches UnmountEvent::Related(Err(error)) ==> state.step(event).1
            == UnmountActionView::Fail(error@),
        event matches UnmountEvent::Unmounted(Err(error)) ==> state.step(event).1
            == UnmountActionView::Fail(error@),
        event matches UnmountEvent::Mountinfo(Err(cause)) ==> state.step(event).1
            == UnmountActionView::Fail(WorkerErrorView::Platform(cause@)),
        event matches UnmountEvent::Mountinfo(Ok(mountinfo)) ==> mounts::listed_mounts(
            mountinfo@,
        ) is Err ==> state.step(event).1 is Fail,
{
}

/// Nothing that goes wrong is passed over while the target is ejected, but that it cannot be powered
/// off: another target, one that cannot be told apart from others, and every other failure ends it.
pub proof fn trouble_ends_the_ejecting(
    selected: WorkerDriveView,
    phase: EjectPhaseView,
    event: EjectEvent,
)
    requires
        eject_expects(phase, event),
    ensures
        event matches EjectEvent::Unmounted(Err(error)) ==> eject_step(selected, phase, event).1
            == EjectActionView::Fail(error@),
        event matches EjectEvent::Target(Err(error)) ==> eject_step(selected, phase, event).1
            == EjectActionView::Fail(error@),
        event matches EjectEvent::Target(Ok(drive)) ==> drive@ != selected ==> eject_step(
            selected,
            phase,
            event,
        ).1 == EjectActionView::Fail(WorkerErrorView::TargetChanged),
        event matches EjectEvent::Target(Ok(_)) ==> linux::split_identifier(selected.id) is None
            ==> eject_step(selected, phase, event).1 is Fail,
        event matches EjectEvent::Number(read) ==> devices::number_attribute(read) is Err
            ==> eject_step(selected, phase, event).1 is Fail,
        event matches EjectEvent::Service(Err(error)) ==> if phase is Finding {
            eject_step(selected, phase, event).1 == EjectActionView::Fail(error@)
        } else if phase is Ejecting {
            eject_step(selected, phase, event).1 is Fail
        } else {
            eject_step(selected, phase, event).1 is EjectMedium
        },
{
}

} // verus!
