//! The block devices that depend on the selected one: its partitions and, transitively, everything
//! that holds one of them, such as a device-mapper volume with the running system on it.

use vstd::prelude::*;
use vstd::string::*;

use crate::worker::linux::devices;
use crate::worker::linux::devices::{
    look_error, read_device_number, AttributeRead, DeviceNumber,
};
use crate::worker::session::LookFailure;
use crate::worker::{WorkerError, WorkerErrorView};

verus! {

broadcast use vstd::seq_lib::group_seq_properties;

/// The entries of a directory that name devices: the device number of each. An entry that is none
/// holds nothing, and one that could not be read holds the cause.
pub type DeviceEntries = Vec<Result<Option<AttributeRead>, String>>;

/// The device numbers of some entries, in their order, or the first fault.
pub open spec fn entry_numbers(entries: Seq<Result<Option<AttributeRead>, String>>) -> Result<
    Seq<DeviceNumber>,
    WorkerErrorView,
>
    decreases entries.len(),
{
    if entries.len() == 0 {
        Ok(Seq::empty())
    } else {
        match entry_numbers(entries.drop_last()) {
            Err(fault) => Err(fault),
            Ok(before) => match entries.last() {
                Err(cause) => Err(WorkerErrorView::Platform(cause@)),
                Ok(None) => Ok(before),
                Ok(Some(read)) => match devices::number_attribute(read) {
                    Err(fault) => Err(fault),
                    Ok(number) => Ok(before.push(number)),
                },
            },
        }
    }
}

proof fn first_fault_stays(entries: Seq<Result<Option<AttributeRead>, String>>, upto: int)
    requires
        0 <= upto <= entries.len(),
        entry_numbers(entries.take(upto)) is Err,
    ensures
        entry_numbers(entries) == entry_numbers(entries.take(upto)),
    decreases entries.len() - upto,
{
    if upto < entries.len() {
        assert(entries.take(upto + 1).drop_last() =~= entries.take(upto));
        first_fault_stays(entries, upto + 1);
    } else {
        assert(entries.take(upto) =~= entries);
    }
}

fn read_entries(entries: &DeviceEntries) -> (result: Result<Vec<DeviceNumber>, WorkerError>)
    ensures
        match result {
            Ok(numbers) => entry_numbers(entries@) == Ok::<Seq<DeviceNumber>, WorkerErrorView>(
                numbers@,
            ),
            Err(error) => entry_numbers(entries@) == Err::<Seq<DeviceNumber>, WorkerErrorView>(
                error@,
            ),
        },
{
    let mut numbers: Vec<DeviceNumber> = Vec::new();
    let mut index: usize = 0;
    assert(entries@.take(0) =~= Seq::empty());
    while index < entries.len()
        invariant
            index <= entries@.len(),
            entry_numbers(entries@.take(index as int)) == Ok::<Seq<DeviceNumber>, WorkerErrorView>(
                numbers@,
            ),
        decreases entries@.len() - index,
    {
        let ghost upto = entries@.take(index as int + 1);
        assert(upto.drop_last() =~= entries@.take(index as int));
        match &entries[index] {
            Err(cause) => {
                proof {
                    first_fault_stays(entries@, index as int + 1);
                }
                return Err(WorkerError::Platform(cause.clone()));
            },
            Ok(None) => {},
            Ok(Some(read)) => match read_device_number(read) {
                Err(error) => {
                    proof {
                        first_fault_stays(entries@, index as int + 1);
                    }
                    return Err(error);
                },
                Ok(number) => {
                    numbers.push(number);
                },
            },
        }
        index += 1;
    }
    assert(entries@.take(entries@.len() as int) =~= entries@);
    Ok(numbers)
}

/// What was read.
#[derive(Debug)]
pub enum RelatedEvent {
    /// The number of the whole device, and the entries of its directory: those that are partitions
    /// with their numbers.
    Device(AttributeRead, Result<DeviceEntries, LookFailure>),
    /// The holders of a device. A device that nothing can hold has no such directory.
    Holders(Result<DeviceEntries, LookFailure>),
}

/// What to do next.
#[derive(Debug)]
pub enum RelatedAction {
    /// Read the number of the whole device and the entries of its directory.
    ReadDevice,
    /// Read the holders of the device with this number.
    ReadHolders(DeviceNumber),
    /// All devices are known.
    Finish(Vec<DeviceNumber>),
    /// Report the error.
    Fail(WorkerError),
}

/// What a [`RelatedAction`] holds.
pub enum RelatedActionView {
    ReadDevice,
    ReadHolders(DeviceNumber),
    Finish(Seq<DeviceNumber>),
    Fail(WorkerErrorView),
}

impl View for RelatedAction {
    type V = RelatedActionView;

    open spec fn view(&self) -> RelatedActionView {
        match *self {
            RelatedAction::ReadDevice => RelatedActionView::ReadDevice,
            RelatedAction::ReadHolders(device) => RelatedActionView::ReadHolders(device),
            RelatedAction::Finish(devices) => RelatedActionView::Finish(devices@),
            RelatedAction::Fail(error) => RelatedActionView::Fail(error@),
        }
    }
}

/// What the search waits for.
#[derive(Clone, Copy, Debug, PartialEq, Eq, Structural)]
pub enum RelatedPhase {
    Device,
    /// The holders of this device.
    Holders(DeviceNumber),
    Closed,
}

/// The state of the search.
pub struct RelatedState {
    pub phase: RelatedPhase,
    /// The devices found so far.
    pub devices: Seq<DeviceNumber>,
    /// Those among them whose holders have not been read yet.
    pub pending: Seq<DeviceNumber>,
}

impl RelatedState {
    /// Whether the event answers what the search waits for.
    pub open spec fn expects(self, event: RelatedEvent) -> bool {
        match self.phase {
            RelatedPhase::Device => event is Device,
            RelatedPhase::Holders(_) => event is Holders,
            RelatedPhase::Closed => false,
        }
    }

    /// The state with devices that were found. Those that are known stay as they are.
    pub open spec fn found(self, numbers: Seq<DeviceNumber>) -> RelatedState
        decreases numbers.len(),
    {
        if numbers.len() == 0 {
            self
        } else {
            let before = self.found(numbers.drop_last());
            if before.devices.contains(numbers.last()) {
                before
            } else {
                RelatedState {
                    devices: before.devices.push(numbers.last()),
                    pending: before.pending.push(numbers.last()),
                    ..before
                }
            }
        }
    }

    /// The search gives up.
    pub open spec fn fail(self, fault: WorkerErrorView) -> (RelatedState, RelatedActionView) {
        (RelatedState { phase: RelatedPhase::Closed, ..self }, RelatedActionView::Fail(fault))
    }

    /// The next device whose holders are read, or the end.
    pub open spec fn next(self) -> (RelatedState, RelatedActionView) {
        if self.pending.len() == 0 {
            (
                RelatedState { phase: RelatedPhase::Closed, ..self },
                RelatedActionView::Finish(self.devices),
            )
        } else {
            (
                RelatedState {
                    phase: RelatedPhase::Holders(self.pending.last()),
                    pending: self.pending.drop_last(),
                    ..self
                },
                RelatedActionView::ReadHolders(self.pending.last()),
            )
        }
    }

    /// What follows on a directory that was read.
    pub open spec fn after_entries(
        self,
        entries: Seq<Result<Option<AttributeRead>, String>>,
    ) -> (RelatedState, RelatedActionView) {
        match entry_numbers(entries) {
            Err(fault) => self.fail(fault),
            Ok(numbers) => self.found(numbers).next(),
        }
    }

    /// What follows on an event.
    pub open spec fn step(self, event: RelatedEvent) -> (RelatedState, RelatedActionView) {
        match event {
            RelatedEvent::Device(read, listing) => match devices::number_attribute(read) {
                Err(fault) => self.fail(fault),
                Ok(whole) => match listing {
                    Err(failure) => self.fail(devices::read_fault(failure)),
                    Ok(entries) => self.found(seq![whole]).after_entries(entries@),
                },
            },
            RelatedEvent::Holders(listing) => match listing {
                Err(LookFailure::NotFound(_)) => self.next(),
                Err(LookFailure::Failed(cause)) => self.fail(WorkerErrorView::Platform(cause@)),
                Ok(entries) => self.after_entries(entries@),
            },
        }
    }
}

/// How the search begins.
pub open spec fn related_start() -> RelatedState {
    RelatedState {
        phase: RelatedPhase::Device,
        devices: Seq::empty(),
        pending: Seq::empty(),
    }
}

/// Whether a device is among some others.
pub fn is_among(devices: &Vec<DeviceNumber>, device: DeviceNumber) -> (result: bool)
    ensures
        result == devices@.contains(device),
{
    let mut index: usize = 0;
    while index < devices.len()
        invariant
            index <= devices@.len(),
            forall|i: int| 0 <= i < index ==> devices@[i] != device,
        decreases devices@.len() - index,
    {
        if devices[index] == device {
            return true;
        }
        index += 1;
    }
    false
}

/// Searches for the devices that depend on one.
pub struct RelatedDevices {
    phase: RelatedPhase,
    devices: Vec<DeviceNumber>,
    pending: Vec<DeviceNumber>,
}

impl View for RelatedDevices {
    type V = RelatedState;

    closed spec fn view(&self) -> RelatedState {
        RelatedState { phase: self.phase, devices: self.devices@, pending: self.pending@ }
    }
}

impl RelatedDevices {
    /// Begin the search.
    pub fn start() -> (result: (RelatedDevices, RelatedAction))
        ensures
            result.0@ == related_start(),
            result.1@ == RelatedActionView::ReadDevice,
    {
        (
            RelatedDevices {
                phase: RelatedPhase::Device,
                devices: Vec::new(),
                pending: Vec::new(),
            },
            RelatedAction::ReadDevice,
        )
    }

    fn found(&mut self, number: DeviceNumber)
        ensures
            final(self)@ == old(self)@.found(seq![number]),
    {
        proof {
            let one = seq![number];
            assert(one.drop_last() =~= Seq::empty());
            reveal_with_fuel(RelatedState::found, 2);
        }
        if !is_among(&self.devices, number) {
            self.devices.push(number);
            self.pending.push(number);
        }
    }

    fn fail(&mut self, error: WorkerError) -> (action: RelatedAction)
        ensures
            (final(self)@, action@) == old(self)@.fail(error@),
    {
        self.phase = RelatedPhase::Closed;
        RelatedAction::Fail(error)
    }

    fn next(&mut self) -> (action: RelatedAction)
        ensures
            (final(self)@, action@) == old(self)@.next(),
    {
        match self.pending.pop() {
            None => {
                self.phase = RelatedPhase::Closed;
                RelatedAction::Finish(copy_numbers(&self.devices))
            },
            Some(device) => {
                self.phase = RelatedPhase::Holders(device);
                RelatedAction::ReadHolders(device)
            },
        }
    }

    fn after_entries(&mut self, entries: &DeviceEntries) -> (action: RelatedAction)
        ensures
            (final(self)@, action@) == old(self)@.after_entries(entries@),
    {
        let numbers = match read_entries(entries) {
            Err(error) => {
                return self.fail(error);
            },
            Ok(numbers) => numbers,
        };
        let ghost start = self@;
        let mut index: usize = 0;
        assert(numbers@.take(0) =~= Seq::empty());
        while index < numbers.len()
            invariant
                index <= numbers@.len(),
                self@ == start.found(numbers@.take(index as int)),
            decreases numbers@.len() - index,
        {
            let ghost upto = numbers@.take(index as int + 1);
            assert(upto.drop_last() =~= numbers@.take(index as int));
            if !is_among(&self.devices, numbers[index]) {
                self.devices.push(numbers[index]);
                self.pending.push(numbers[index]);
            }
            index += 1;
        }
        assert(numbers@.take(numbers@.len() as int) =~= numbers@);
        self.next()
    }

    /// What to do next after something was read.
    pub fn step(&mut self, event: &RelatedEvent) -> (action: RelatedAction)
        requires
            old(self)@.expects(*event),
        ensures
            (final(self)@, action@) == old(self)@.step(*event),
    {
        match event {
            RelatedEvent::Device(read, listing) => match read_device_number(read) {
                Err(error) => self.fail(error),
                Ok(whole) => match listing {
                    Err(failure) => self.fail(look_error(failure)),
                    Ok(entries) => {
                        self.found(whole);
                        self.after_entries(entries)
                    },
                },
            },
            RelatedEvent::Holders(listing) => match listing {
                Err(LookFailure::NotFound(_)) => self.next(),
                Err(LookFailure::Failed(cause)) => self.fail(WorkerError::Platform(cause.clone())),
                Ok(entries) => self.after_entries(entries),
            },
        }
    }
}

/// A copy of some device numbers.
pub fn copy_numbers(numbers: &Vec<DeviceNumber>) -> (result: Vec<DeviceNumber>)
    ensures
        result@ == numbers@,
{
    let mut result: Vec<DeviceNumber> = Vec::new();
    let mut index: usize = 0;
    while index < numbers.len()
        invariant
            index <= numbers@.len(),
            result@ == numbers@.take(index as int),
        decreases numbers@.len() - index,
    {
        result.push(numbers[index]);
        assert(numbers@.take(index as int + 1) =~= numbers@.take(index as int).push(
            numbers@[index as int],
        ));
        index += 1;
    }
    assert(numbers@.take(numbers@.len() as int) =~= numbers@);
    result
}

// ---------------------------------------------------------------------------------------------
// What holds of the devices that were found
// ---------------------------------------------------------------------------------------------

/// The state after a run of events.
pub open spec fn related_after(events: Seq<RelatedEvent>) -> RelatedState
    decreases events.len(),
{
    if events.len() == 0 {
        related_start()
    } else {
        related_after(events.drop_last()).step(events.last()).0
    }
}

/// Whether every event of the run answers what the search waited for.
pub open spec fn related_accepts(events: Seq<RelatedEvent>) -> bool
    decreases events.len(),
{
    events.len() == 0 || (related_accepts(events.drop_last()) && related_after(
        events.drop_last(),
    ).expects(events.last()))
}

/// The numbers that an event brought.
pub open spec fn brought(event: RelatedEvent) -> Seq<DeviceNumber> {
    let listing = match event {
        RelatedEvent::Device(_, listing) => listing,
        RelatedEvent::Holders(listing) => listing,
    };
    match listing {
        Ok(entries) => match entry_numbers(entries@) {
            Ok(numbers) => numbers,
            Err(_) => Seq::empty(),
        },
        Err(_) => Seq::empty(),
    }
}

/// Whether the holders of a device were read during a run.
pub open spec fn holders_were_read(events: Seq<RelatedEvent>, device: DeviceNumber) -> bool
    decreases events.len(),
{
    events.len() > 0 && (related_after(events.drop_last()).phase == RelatedPhase::Holders(device)
        || holders_were_read(events.drop_last(), device))
}

proof fn found_keeps(state: RelatedState, numbers: Seq<DeviceNumber>)
    ensures
        forall|device: DeviceNumber|
            #![trigger state.found(numbers).devices.contains(device)]
            state.found(numbers).devices.contains(device) <==> state.devices.contains(device)
                || numbers.contains(device),
        forall|device: DeviceNumber|
            #![trigger state.found(numbers).pending.contains(device)]
            state.found(numbers).pending.contains(device) <==> state.pending.contains(device) || (
            numbers.contains(device) && !state.devices.contains(device)),
        state.found(numbers).phase == state.phase,
    decreases numbers.len(),
{
    if numbers.len() > 0 {
        let head = numbers.drop_last();
        let number = numbers.last();
        found_keeps(state, head);
        let before = state.found(head);
        let after = state.found(numbers);
        assert(numbers =~= head.push(number));
        assert forall|device: DeviceNumber| numbers.contains(device) <==> head.contains(device)
            || device == number by {
            pushed_contains(head, number, device);
        }
        assert forall|device: DeviceNumber|
            #![trigger after.devices.contains(device)]
            after.devices.contains(device) <==> state.devices.contains(device)
                || numbers.contains(device) by {
            pushed_contains(before.devices, number, device);
        }
        assert forall|device: DeviceNumber|
            #![trigger after.pending.contains(device)]
            after.pending.contains(device) <==> state.pending.contains(device) || (
            numbers.contains(device) && !state.devices.contains(device)) by {
            pushed_contains(before.pending, number, device);
            assert(before.devices.contains(number) <==> state.devices.contains(number)
                || head.contains(number));
        }
    }
}

proof fn pushed_contains(s: Seq<DeviceNumber>, last: DeviceNumber, device: DeviceNumber)
    ensures
        s.push(last).contains(device) <==> s.contains(device) || device == last,
{
    if s.contains(device) {
        let i = choose|i: int| 0 <= i < s.len() && s[i] == device;
        assert(s.push(last)[i] == device);
    }
    if device == last {
        assert(s.push(last)[s.len() as int] == device);
    }
    if s.push(last).contains(device) && device != last {
        let i = choose|i: int| 0 <= i < s.push(last).len() && s.push(last)[i] == device;
        assert(s[i] == device);
    }
}

/// What the search keeps: a device is known or not, and of each that is known the holders were
/// read, are being read, or are still to be read.
spec fn search_keeps(events: Seq<RelatedEvent>) -> bool {
    let state = related_after(events);
    forall|device: DeviceNumber|
        #![trigger state.devices.contains(device)]
        state.devices.contains(device) ==> state.pending.contains(device) || state.phase
            == RelatedPhase::Holders(device) || holders_were_read(events, device)
}

proof fn search_goes_on(events: Seq<RelatedEvent>)
    requires
        related_accepts(events),
        events.len() > 0,
        !(related_after(events.drop_last()).step(events.last()).1 is Fail),
        search_keeps(events.drop_last()),
    ensures
        search_keeps(events),
        forall|i: int|
            0 <= i < brought(events.last()).len() ==> related_after(events).devices.contains(
                #[trigger] brought(events.last())[i],
            ),
        forall|device: DeviceNumber|
            #![trigger related_after(events).devices.contains(device)]
            related_after(events.drop_last()).devices.contains(device) ==> related_after(
                events,
            ).devices.contains(device),
{
    let head = events.drop_last();
    let before = related_after(head);
    let numbers = brought(events.last());
    let known = match events.last() {
        RelatedEvent::Device(read, _) => before.found(seq![devices::number_attribute(read)->Ok_0]),
        RelatedEvent::Holders(_) => before,
    };
    if let RelatedEvent::Device(read, _) = events.last() {
        found_keeps(before, seq![devices::number_attribute(read)->Ok_0]);
    }
    found_keeps(known, numbers);
    let after = known.found(numbers);
    let state = related_after(events);
    if numbers.len() == 0 {
        assert(known.found(numbers) == known);
    }
    assert((state, before.step(events.last()).1) == after.next());
    assert forall|i: int| 0 <= i < numbers.len() implies state.devices.contains(
        #[trigger] numbers[i],
    ) by {
        assert(numbers.contains(numbers[i]));
        assert(after.devices.contains(numbers[i]));
    }
    assert forall|device: DeviceNumber|
        #![trigger state.devices.contains(device)]
        state.devices.contains(device) implies state.pending.contains(device) || state.phase
        == RelatedPhase::Holders(device) || holders_were_read(events, device) by {
        assert(after.devices.contains(device));
        if after.pending.contains(device) && after.pending.len() > 0 {
            assert(after.pending =~= after.pending.drop_last().push(after.pending.last()));
            pushed_contains(after.pending.drop_last(), after.pending.last(), device);
        }
        assert(before.devices.contains(device) ==> before.pending.contains(device) || before.phase
            == RelatedPhase::Holders(device) || holders_were_read(head, device));
        assert(known.devices.contains(device) ==> known.pending.contains(device)
            || holders_were_read(events, device) || before.devices.contains(device));
    }
    assert forall|device: DeviceNumber|
        #![trigger state.devices.contains(device)]
        before.devices.contains(device) implies state.devices.contains(device) by {
        assert(known.devices.contains(device));
        assert(after.devices.contains(device));
    }
}

proof fn search_is_complete(events: Seq<RelatedEvent>)
    requires
        related_accepts(events),
        related_after(events).phase != RelatedPhase::Closed || (events.len() > 0 && related_after(
            events.drop_last(),
        ).step(events.last()).1 is Finish),
    ensures
        search_keeps(events),
        forall|i: int, j: int|
            0 <= i < events.len() && 0 <= j < brought(events[i]).len() ==> related_after(
                events,
            ).devices.contains(#[trigger] brought(events[i])[j]),
    decreases events.len(),
{
    if events.len() > 0 {
        let head = events.drop_last();
        let before = related_after(head);
        assert(before.phase != RelatedPhase::Closed);
        search_is_complete(head);
        assert(!(before.step(events.last()).1 is Fail));
        search_goes_on(events);
        assert forall|i: int, j: int|
            0 <= i < events.len() && 0 <= j < brought(events[i]).len() implies related_after(
            events,
        ).devices.contains(#[trigger] brought(events[i])[j]) by {
            if i < head.len() {
                assert(head[i] == events[i]);
                assert(before.devices.contains(brought(head[i])[j]));
            }
        }
    }
}

/// The devices that the search hands out are closed under holding: every partition and every
/// holder that was read is among them, and the holders of each of them were read.
pub proof fn related_devices_are_closed_under_holding(
    events: Seq<RelatedEvent>,
    event: RelatedEvent,
)
    requires
        related_accepts(events.push(event)),
        related_after(events).step(event).1 is Finish,
    ensures
        ({
            let all = events.push(event);
            let found = related_after(events).step(event).1->Finish_0;
            &&& forall|i: int, j: int|
                0 <= i < all.len() && 0 <= j < brought(all[i]).len() ==> found.contains(
                    #[trigger] brought(all[i])[j],
                )
            &&& forall|device: DeviceNumber| #[trigger]
                found.contains(device) ==> holders_were_read(all, device)
        }),
{
    let all = events.push(event);
    assert(all.drop_last() =~= events);
    search_is_complete(all);
    let state = related_after(all);
    assert(state == related_after(events).step(event).0);
    let found = related_after(events).step(event).1->Finish_0;
    assert(found == state.devices);
    assert(state.pending.len() == 0);
    assert forall|device: DeviceNumber| #[trigger] found.contains(device) implies holders_were_read(
        all,
        device,
    ) by {
        assert(state.devices.contains(device));
    }
}

/// The entries of a directory can be read exactly where each of them can and each number that one of
/// them names is a device number.
pub proof fn readable_entries_give_their_numbers(
    entries: Seq<Result<Option<AttributeRead>, String>>,
    last: Result<Option<AttributeRead>, String>,
)
    ensures
        entry_numbers(entries) matches Ok(numbers) ==> match last {
            Err(cause) => entry_numbers(entries.push(last)) == Err::<
                Seq<DeviceNumber>,
                WorkerErrorView,
            >(WorkerErrorView::Platform(cause@)),
            Ok(None) => entry_numbers(entries.push(last)) == Ok::<
                Seq<DeviceNumber>,
                WorkerErrorView,
            >(numbers),
            Ok(Some(read)) => match devices::number_attribute(read) {
                Ok(number) => entry_numbers(entries.push(last)) == Ok::<
                    Seq<DeviceNumber>,
                    WorkerErrorView,
                >(numbers.push(number)),
                Err(fault) => entry_numbers(entries.push(last)) == Err::<
                    Seq<DeviceNumber>,
                    WorkerErrorView,
                >(fault),
            },
        },
        entry_numbers(entries) is Err ==> entry_numbers(entries.push(last)) == entry_numbers(
            entries,
        ),
{
    assert(entries.push(last).drop_last() =~= entries);
}

/// The whole device and its partitions are found first; then the holders of every device that was
/// found are read, one after the other, and what is found last is handed out.
pub proof fn every_found_device_is_asked_for_its_holders(
    state: RelatedState,
    read: AttributeRead,
    entries: DeviceEntries,
    whole: DeviceNumber,
    numbers: Seq<DeviceNumber>,
)
    requires
        state == related_start(),
        devices::number_attribute(read) == Ok::<DeviceNumber, WorkerErrorView>(whole),
        entry_numbers(entries@) == Ok::<Seq<DeviceNumber>, WorkerErrorView>(numbers),
    ensures
        ({
            let (after, action) = state.step(RelatedEvent::Device(read, Ok(entries)));
            &&& forall|device: DeviceNumber| #[trigger]
                after.devices.contains(device) <==> device == whole || numbers.contains(device)
            &&& action matches RelatedActionView::ReadHolders(asked) && after.devices.contains(
                asked,
            ) && after.phase == RelatedPhase::Holders(asked)
        }),
{
    let first = state.found(seq![whole]);
    found_keeps(state, seq![whole]);
    found_keeps(first, numbers);
    assert(seq![whole][0] == whole);
    let second = first.found(numbers);
    assert(first.pending.contains(whole));
    assert(second.pending.contains(whole));
    assert(second.pending.len() > 0);
    let asked = second.pending.last();
    assert(second.pending[second.pending.len() - 1] == asked);
    assert(second.pending.contains(asked));
    assert forall|device: DeviceNumber| #[trigger]
        second.devices.contains(device) <==> device == whole || numbers.contains(device) by {
        assert(first.devices.contains(device) <==> state.devices.contains(device) || seq![
            whole,
        ].contains(device));
        assert(seq![whole].contains(device) <==> device == whole) by {
            if seq![whole].contains(device) {
                let at = choose|i: int| 0 <= i < seq![whole].len() && seq![whole][i] == device;
                assert(at == 0);
            }
        }
    }
}

/// A holder that is found joins the devices and nothing else does; a device that nothing can hold
/// adds none, and what cannot be read ends the search with its fault.
pub proof fn holders_join_the_devices(state: RelatedState, event: RelatedEvent)
    requires
        state.phase is Holders,
        state.expects(event),
    ensures
        ({
            let listing = event->Holders_0;
            let (after, action) = state.step(event);
            &&& listing matches Err(LookFailure::NotFound(_)) ==> after.devices == state.devices
                && !(action is Fail)
            &&& listing matches Err(LookFailure::Failed(cause)) ==> action
                == RelatedActionView::Fail(WorkerErrorView::Platform(cause@))
            &&& listing matches Ok(entries) ==> match entry_numbers(entries@) {
                Err(fault) => action == RelatedActionView::Fail(fault),
                Ok(numbers) => !(action is Fail) && forall|device: DeviceNumber| #[trigger]
                    after.devices.contains(device) <==> state.devices.contains(device)
                        || numbers.contains(device),
            }
            &&& action matches RelatedActionView::Finish(found) ==> found == after.devices
                && after.pending.len() == 0
        }),
{
    if let Ok(entries) = event->Holders_0 {
        if let Ok(numbers) = entry_numbers(entries@) {
            found_keeps(state, numbers);
        }
    }
}

/// Nothing that goes wrong is passed over: a number or a list that cannot be read ends the search,
/// except that a device without holders has none.
pub proof fn trouble_ends_the_search(state: RelatedState, event: RelatedEvent)
    requires
        state.expects(event),
    ensures
        event matches RelatedEvent::Device(read, listing) ==> devices::number_attribute(read) is Err
            || listing is Err ==> state.step(event).1 is Fail,
        event matches RelatedEvent::Holders(Err(failure)) ==> (failure is Failed <==> state.step(
            event,
        ).1 is Fail),
{
}

} // verus!
