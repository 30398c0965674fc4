//! Locking and dismounting every volume of one physical disk.
//!
//! The volumes are gone through one by one: the extents of each are read first, and only a volume
//! that lies on the disk alone is opened, locked and dismounted. The handles stay open, so that
//! the volumes stay dismounted.

use vstd::prelude::*;
use vstd::string::*;

use crate::text::{join2, join3};
use crate::windows_native;
use crate::windows_native::{volume_path, volume_relation, VolumeRelation};

verus! {

broadcast use vstd::seq_lib::group_seq_properties;

/// What an access came to.
#[derive(Debug)]
pub enum VolumeEvent {
    /// The answer to an extents query, with how many of its bytes are filled.
    Extents(Result<(Vec<u8>, usize), String>),
    /// The volume was opened, locked or dismounted, or why it was not.
    Handled(Result<(), String>),
}

/// What to do next.
#[derive(Debug)]
pub enum VolumeAction {
    /// Open the volume at this path without access to its data, and query its extents.
    Inspect(String),
    /// Open the volume at this path for reading and writing, and keep it open.
    Open(String),
    /// Lock the opened volume.
    Lock,
    /// Dismount the locked volume.
    Dismount,
    /// Every volume of the disk is dismounted.
    Finish,
    /// The volumes could not be dismounted.
    Fail(String),
}

/// What a [`VolumeAction`] holds.
pub enum VolumeActionView {
    Inspect(Seq<char>),
    Open(Seq<char>),
    Lock,
    Dismount,
    Finish,
    Fail(Seq<char>),
}

impl View for VolumeAction {
    type V = VolumeActionView;

    open spec fn view(&self) -> VolumeActionView {
        match *self {
            VolumeAction::Inspect(path) => VolumeActionView::Inspect(path@),
            VolumeAction::Open(path) => VolumeActionView::Open(path@),
            VolumeAction::Lock => VolumeActionView::Lock,
            VolumeAction::Dismount => VolumeActionView::Dismount,
            VolumeAction::Finish => VolumeActionView::Finish,
            VolumeAction::Fail(cause) => VolumeActionView::Fail(cause@),
        }
    }
}

/// What is awaited.
#[derive(Clone, Copy, Debug, PartialEq, Eq)]
pub enum VolumePhase {
    Inspecting,
    Opening,
    Locking,
    Dismounting,
    Closed,
}

/// How far the volumes have been gone through.
pub struct VolumeState {
    pub disk_number: u32,
    pub volumes: Seq<Seq<char>>,
    /// The volume that is being handled.
    pub at: nat,
    pub phase: VolumePhase,
}

impl VolumeState {
    /// Whether the event is an answer to what was asked for.
    pub open spec fn expects(self, event: VolumeEvent) -> bool {
        match self.phase {
            VolumePhase::Closed => false,
            VolumePhase::Inspecting => event matches VolumeEvent::Extents(answer) && (
            answer matches Ok((bytes, count)) ==> count <= bytes@.len()),
            _ => event is Handled,
        }
    }

    /// The next phase, with what it waits for.
    pub open spec fn go(self, phase: VolumePhase, action: VolumeActionView) -> (
        VolumeState,
        VolumeActionView,
    ) {
        (VolumeState { phase, ..self }, action)
    }

    /// The locking gives up.
    pub open spec fn fail(self, cause: Seq<char>) -> (VolumeState, VolumeActionView) {
        self.go(VolumePhase::Closed, VolumeActionView::Fail(cause))
    }

    /// The volume that is due, or the end.
    pub open spec fn next(self) -> (VolumeState, VolumeActionView) {
        if self.at >= self.volumes.len() {
            self.go(VolumePhase::Closed, VolumeActionView::Finish)
        } else {
            self.go(
                VolumePhase::Inspecting,
                VolumeActionView::Inspect(windows_native::opened_path(self.volumes[self.at as int])),
            )
        }
    }

    /// The state behind the volume that was handled.
    pub open spec fn behind(self) -> VolumeState {
        VolumeState { at: self.at + 1, ..self }
    }

    /// What follows from the relation of the volume to the disk.
    pub open spec fn decide(self, relation: VolumeRelation) -> (VolumeState, VolumeActionView) {
        match relation {
            VolumeRelation::Unrelated => self.behind().next(),
            VolumeRelation::Spanned => self.fail(
                "refusing a volume that spans the selected disk and another disk"@,
            ),
            VolumeRelation::Exact => self.go(
                VolumePhase::Opening,
                VolumeActionView::Open(windows_native::opened_path(self.volumes[self.at as int])),
            ),
        }
    }

    /// What follows on an event.
    pub open spec fn step(self, event: VolumeEvent) -> (VolumeState, VolumeActionView) {
        let volume = self.volumes[self.at as int];
        match event {
            VolumeEvent::Extents(Err(cause)) => self.fail(cause@),
            VolumeEvent::Extents(Ok((bytes, count))) => match windows_native::extents_fault(
                bytes@,
                count as int,
            ) {
                Some(fault) => self.fail(fault),
                None => self.decide(
                    windows_native::relation_of(
                        bytes@,
                        windows_native::le_u32(bytes@, 0) as int,
                        self.disk_number,
                    ),
                ),
            },
            VolumeEvent::Handled(Err(cause)) => match self.phase {
                VolumePhase::Locking => self.fail(
                    "could not lock "@ + volume
                        + "; close Explorer and applications using the card: "@ + cause@,
                ),
                VolumePhase::Dismounting => self.fail(
                    "could not dismount "@ + volume + ": "@ + cause@,
                ),
                _ => self.fail(cause@),
            },
            VolumeEvent::Handled(Ok(())) => match self.phase {
                VolumePhase::Opening => self.go(VolumePhase::Locking, VolumeActionView::Lock),
                VolumePhase::Locking => self.go(
                    VolumePhase::Dismounting,
                    VolumeActionView::Dismount,
                ),
                _ => self.behind().next(),
            },
        }
    }
}

/// The texts of some names.
pub open spec fn names(volumes: Seq<String>) -> Seq<Seq<char>> {
    volumes.map_values(|volume: String| volume@)
}

/// Before the first volume is looked at.
pub open spec fn volumes_start(disk_number: u32, volumes: Seq<Seq<char>>) -> (
    VolumeState,
    VolumeActionView,
) {
    VolumeState { disk_number, volumes, at: 0, phase: VolumePhase::Closed }.next()
}

/// Locks and dismounts the volumes of one physical disk.
#[derive(Debug)]
pub struct VolumeLocking {
    disk_number: u32,
    volumes: Vec<String>,
    at: usize,
    phase: VolumePhase,
}

impl View for VolumeLocking {
    type V = VolumeState;

    closed spec fn view(&self) -> VolumeState {
        VolumeState {
            disk_number: self.disk_number,
            volumes: names(self.volumes@),
            at: self.at as nat,
            phase: self.phase,
        }
    }
}

/// Begin to lock and dismount the volumes of a disk, given the names of all volumes.
pub fn lock_and_dismount_volumes(disk_number: u32, volumes: Vec<String>) -> (result: (
    VolumeLocking,
    VolumeAction,
))
    ensures
        result.0.well_formed(),
        (result.0@, result.1@) == volumes_start(disk_number, names(volumes@)),
{
    let mut locking = VolumeLocking { disk_number, volumes, at: 0, phase: VolumePhase::Closed };
    let action = locking.next();
    (locking, action)
}

impl VolumeLocking {
    /// A volume is being handled unless the end was reached.
    pub closed spec fn well_formed(self) -> bool {
        self.phase is Closed || self.at < self.volumes@.len()
    }

    fn next(&mut self) -> (action: VolumeAction)
        ensures
            final(self).well_formed(),
            (final(self)@, action@) == old(self)@.next(),
    {
        if self.at >= self.volumes.len() {
            self.phase = VolumePhase::Closed;
            VolumeAction::Finish
        } else {
            self.phase = VolumePhase::Inspecting;
            VolumeAction::Inspect(volume_path(self.volumes[self.at].as_str()))
        }
    }

    fn fail(&mut self, cause: String) -> (action: VolumeAction)
        ensures
            final(self).well_formed(),
            (final(self)@, action@) == old(self)@.fail(cause@),
    {
        self.phase = VolumePhase::Closed;
        VolumeAction::Fail(cause)
    }

    fn decide(&mut self, relation: VolumeRelation) -> (action: VolumeAction)
        requires
            old(self).at < old(self).volumes@.len(),
        ensures
            final(self).well_formed(),
            (final(self)@, action@) == old(self)@.decide(relation),
    {
        let length: usize = self.volumes.len();
        assert(self.at < length);
        match relation {
            VolumeRelation::Unrelated => {
                self.at = self.at + 1;
                self.next()
            },
            VolumeRelation::Spanned => self.fail(
                "refusing a volume that spans the selected disk and another disk".to_owned(),
            ),
            VolumeRelation::Exact => {
                self.phase = VolumePhase::Opening;
                VolumeAction::Open(volume_path(self.volumes[self.at].as_str()))
            },
        }
    }

    /// Take in what the last access came to, and say what to do next.
    pub fn step(&mut self, event: &VolumeEvent) -> (action: VolumeAction)
        requires
            old(self).well_formed(),
            old(self)@.expects(*event),
        ensures
            final(self).well_formed(),
            (final(self)@, action@) == old(self)@.step(*event),
    {
        let length: usize = self.volumes.len();
        assert(self.at < length);
        match event {
            VolumeEvent::Extents(Err(cause)) => self.fail(cause.clone()),
            VolumeEvent::Extents(Ok((bytes, count))) => match volume_relation(
                bytes,
                *count,
                self.disk_number,
            ) {
                Err(fault) => self.fail(fault),
                Ok(relation) => self.decide(relation),
            },
            VolumeEvent::Handled(Err(cause)) => match self.phase {
                VolumePhase::Locking => {
                    let failed = join3(
                        "could not lock ",
                        self.volumes[self.at].as_str(),
                        "; close Explorer and applications using the card: ",
                    );
                    self.fail(join2(failed.as_str(), cause.as_str()))
                },
                VolumePhase::Dismounting => {
                    let failed = join3("could not dismount ", self.volumes[self.at].as_str(), ": ");
                    self.fail(join2(failed.as_str(), cause.as_str()))
                },
                _ => self.fail(cause.clone()),
            },
            VolumeEvent::Handled(Ok(())) => match self.phase {
                VolumePhase::Opening => {
                    self.phase = VolumePhase::Locking;
                    VolumeAction::Lock
                },
                VolumePhase::Locking => {
                    self.phase = VolumePhase::Dismounting;
                    VolumeAction::Dismount
                },
                _ => {
                    self.at = self.at + 1;
                    self.next()
                },
            },
        }
    }
}

// ---------------------------------------------------------------------------------------------
// Runs
// ---------------------------------------------------------------------------------------------

/// The state after some events.
pub open spec fn volumes_after(start: VolumeState, events: Seq<VolumeEvent>) -> VolumeState
    decreases events.len(),
{
    if events.len() == 0 {
        start
    } else {
        volumes_after(start, events.drop_last()).step(events.last()).0
    }
}

/// Whether each event answers what was asked for.
pub open spec fn volumes_accept(start: VolumeState, events: Seq<VolumeEvent>) -> bool
    decreases events.len(),
{
    events.len() == 0 || (volumes_accept(start, events.drop_last()) && volumes_after(
        start,
        events.drop_last(),
    ).expects(events.last()))
}

/// Whether the extents of a volume were found to have this relation to the disk.
pub open spec fn was_found(
    start: VolumeState,
    events: Seq<VolumeEvent>,
    volume: nat,
    relation: VolumeRelation,
) -> bool
    decreases events.len(),
{
    events.len() > 0 && (was_found(start, events.drop_last(), volume, relation) || ({
        let before = volumes_after(start, events.drop_last());
        &&& before.at == volume
        &&& events.last() matches VolumeEvent::Extents(Ok((bytes, count)))
        &&& windows_native::extents_fault(bytes@, count as int) is None
        &&& windows_native::relation_of(
            bytes@,
            windows_native::le_u32(bytes@, 0) as int,
            start.disk_number,
        ) == relation
    }))
}

/// Whether a volume was successfully taken through this phase.
pub open spec fn was_taken_through(
    start: VolumeState,
    events: Seq<VolumeEvent>,
    volume: nat,
    phase: VolumePhase,
) -> bool
    decreases events.len(),
{
    events.len() > 0 && (was_taken_through(start, events.drop_last(), volume, phase) || ({
        let before = volumes_after(start, events.drop_last());
        &&& before.at == volume
        &&& before.phase == phase
        &&& events.last() matches VolumeEvent::Handled(Ok(()))
    }))
}

/// Whether a volume does not touch the disk, or was locked and dismounted as one that lies on the
/// disk alone.
pub open spec fn is_out_of_the_way(
    start: VolumeState,
    events: Seq<VolumeEvent>,
    volume: nat,
) -> bool {
    ||| was_found(start, events, volume, VolumeRelation::Unrelated)
    ||| ({
        &&& was_found(start, events, volume, VolumeRelation::Exact)
        &&& was_taken_through(start, events, volume, VolumePhase::Locking)
        &&& was_taken_through(start, events, volume, VolumePhase::Dismounting)
    })
}

proof fn run_keeps_track(disk_number: u32, volumes: Seq<Seq<char>>, events: Seq<VolumeEvent>)
    requires
        volumes_accept(volumes_start(disk_number, volumes).0, events),
    ensures
        ({
            let start = volumes_start(disk_number, volumes).0;
            let state = volumes_after(start, events);
            &&& state.disk_number == disk_number
            &&& state.volumes == volumes
            &&& state.at <= volumes.len()
            &&& forall|i: nat| i < state.at ==> #[trigger] is_out_of_the_way(start, events, i)
            &&& match state.phase {
                VolumePhase::Opening | VolumePhase::Locking => was_found(
                    start,
                    events,
                    state.at,
                    VolumeRelation::Exact,
                ),
                VolumePhase::Dismounting => {
                    &&& was_found(start, events, state.at, VolumeRelation::Exact)
                    &&& was_taken_through(start, events, state.at, VolumePhase::Locking)
                },
                _ => true,
            }
            &&& state.phase is Closed || state.at < volumes.len()
        }),
    decreases events.len(),
{
    let start = volumes_start(disk_number, volumes).0;
    if events.len() > 0 {
        run_keeps_track(disk_number, volumes, events.drop_last());
        let before = volumes_after(start, events.drop_last());
        let state = volumes_after(start, events);
        assert forall|i: nat| i < state.at implies #[trigger] is_out_of_the_way(
            start,
            events,
            i,
        ) by {
            if i < before.at {
                assert(is_out_of_the_way(start, events.drop_last(), i));
            }
        }
    }
}

/// When the volumes of a disk are reported as dismounted, every volume of the system either does
/// not touch the disk, or lies on the disk alone and was locked and then dismounted. A volume that
/// spans the disk and another one is never passed over.
pub proof fn dismounted_disk_has_no_free_volume(
    disk_number: u32,
    volumes: Seq<Seq<char>>,
    events: Seq<VolumeEvent>,
    event: VolumeEvent,
    volume: nat,
)
    requires
        volumes_accept(volumes_start(disk_number, volumes).0, events.push(event)),
        volumes_after(volumes_start(disk_number, volumes).0, events).step(event).1 is Finish,
        volume < volumes.len(),
    ensures
        is_out_of_the_way(volumes_start(disk_number, volumes).0, events.push(event), volume),
{
    let start = volumes_start(disk_number, volumes).0;
    assert(events.push(event).drop_last() =~= events);
    run_keeps_track(disk_number, volumes, events);
    run_keeps_track(disk_number, volumes, events.push(event));
    assert(volumes_after(start, events.push(event)).at >= volumes.len());
}

/// A volume that lies on the disk alone is opened under its own path, locked and dismounted before
/// the next one is looked at; one that does not touch the disk is passed over, and one that spans it
/// ends the matter. Behind the last volume everything is done.
pub proof fn volumes_are_handled_by_their_relation(
    state: VolumeState,
    bytes: Vec<u8>,
    count: usize,
)
    requires
        state.phase is Inspecting,
        state.at < state.volumes.len(),
        windows_native::extents_fault(bytes@, count as int) is None,
    ensures
        ({
            let relation = windows_native::relation_of(
                bytes@,
                windows_native::le_u32(bytes@, 0) as int,
                state.disk_number,
            );
            let (opening, action) = state.step(VolumeEvent::Extents(Ok((bytes, count))));
            let (locking, locks) = opening.step(VolumeEvent::Handled(Ok(())));
            let (dismounting, dismounts) = locking.step(VolumeEvent::Handled(Ok(())));
            let (after, next) = dismounting.step(VolumeEvent::Handled(Ok(())));
            let last = state.at + 1 == state.volumes.len();
            let following = VolumeActionView::Inspect(
                windows_native::opened_path(state.volumes[state.at + 1int]),
            );
            &&& relation is Exact ==> {
                &&& action == VolumeActionView::Open(
                    windows_native::opened_path(state.volumes[state.at as int]),
                )
                &&& locks is Lock
                &&& dismounts is Dismount
                &&& last ==> next is Finish
                &&& !last ==> next == following && after.at == state.at + 1
            }
            &&& relation is Unrelated ==> {
                &&& last ==> action is Finish
                &&& !last ==> action == following && opening.at == state.at + 1
            }
            &&& relation is Spanned ==> action is Fail
        }),
{
}

/// The volumes are gone through from the first one, and where there is none nothing is to be done.
pub proof fn volumes_are_gone_through_from_the_first(disk_number: u32, volumes: Seq<Seq<char>>)
    ensures
        volumes.len() == 0 ==> volumes_start(disk_number, volumes).1 is Finish,
        volumes.len() > 0 ==> {
            &&& volumes_start(disk_number, volumes).1 == VolumeActionView::Inspect(
                windows_native::opened_path(volumes[0]),
            )
            &&& volumes_start(disk_number, volumes).0.at == 0
            &&& volumes_start(disk_number, volumes).0.phase is Inspecting
        },
{
}

/// The locking fails only for a reason: an access failed, the extents are unusable, or a volume spans
/// the disk and another one.
pub proof fn failed_locking_has_its_reason(state: VolumeState, event: VolumeEvent)
    requires
        state.expects(event),
    ensures
        event matches VolumeEvent::Extents(Err(cause)) ==> state.step(event).1
            == VolumeActionView::Fail(cause@),
        event matches VolumeEvent::Handled(Err(_)) ==> state.step(event).1 is Fail,
        state.step(event).1 is Fail ==> match event {
            VolumeEvent::Extents(Err(_)) => true,
            VolumeEvent::Extents(Ok((bytes, count))) => windows_native::extents_fault(
                bytes@,
                count as int,
            ) is Some || windows_native::relation_of(
                bytes@,
                windows_native::le_u32(bytes@, 0) as int,
                state.disk_number,
            ) is Spanned,
            VolumeEvent::Handled(result) => result is Err,
        },
{
}

/// A volume whose place cannot be read, or that lies on more than the disk, is never locked: the
/// locking fails instead.
pub proof fn unclear_volume_ends_the_locking(state: VolumeState, event: VolumeEvent)
    requires
        state.expects(event),
    ensures
        event matches VolumeEvent::Extents(Ok((bytes, count))) ==> {
            &&& windows_native::extents_fault(bytes@, count as int) is Some ==> state.step(
                event,
            ).1 is Fail
            &&& windows_native::extents_fault(bytes@, count as int) is None
                && windows_native::relation_of(
                bytes@,
                windows_native::le_u32(bytes@, 0) as int,
                state.disk_number,
            ) is Spanned ==> state.step(event).1 is Fail
        },
{
}

} // verus!
