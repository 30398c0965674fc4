//! Writing a prepared raw image to a target and reading it back.

use vstd::prelude::*;

use crate::digest;
use crate::digest::{hex_encode, Hasher};
use crate::flash::{
    AccessEvent, FlashError, FlashProgress, FlashReport, FlashReportView, FlashStage, BUFFER_SIZE,
};

verus! {

broadcast use vstd::seq_lib::group_seq_properties;

/// How one image is to be written.
#[derive(Clone, Copy, Debug, PartialEq, Eq, Structural)]
pub struct FlashWriteOptions {
    /// The number of bytes that the target can hold.
    pub target_capacity: u64,
    /// Whether to read the target back after the write.
    pub verify: bool,
}

/// The user's wishes at one moment.
#[derive(Clone, Copy, Debug, PartialEq, Eq, Structural)]
pub struct Wishes {
    /// The operation is to stop.
    pub cancelled: bool,
    /// The read-back is to be left out.
    pub skip_verification: bool,
}

/// What a write waits for.
#[derive(Clone, Copy, Debug, PartialEq, Eq, Structural)]
pub enum WritePhase {
    /// Image and target are to be set to their first byte.
    Rewinding,
    /// A chunk of the image is to be read.
    Reading,
    /// A chunk is to be written to the target.
    Writing,
    /// The target is to be flushed.
    Flushing,
    /// The target is to be made ready for reading it back.
    Preparing,
    /// The target is to be set to its first byte again.
    RewindingTarget,
    /// A chunk of the target is to be read back.
    ReadingBack,
    /// The progress of the read-back is to be reported.
    Reporting,
    /// The write is over.
    Closed,
}

/// What to do next.
#[derive(Debug)]
pub enum WriteAction {
    /// Set the image and then the target to their first byte.
    Rewind,
    /// Read the next chunk of the image, of at most [`BUFFER_SIZE`] bytes.
    Read,
    /// Write the chunk that was read to the target, then report this progress.
    Write(FlashProgress),
    /// Flush the target.
    Flush,
    /// Make the target ready for reading it back.
    Prepare,
    /// Set the target to its first byte.
    RewindTarget,
    /// Read at most this many bytes back from the target.
    ReadBack(usize),
    /// Report this progress.
    Report(FlashProgress),
    /// Hand out the report.
    Finish(FlashReport),
    /// Report the error.
    Fail(FlashError),
}

/// What a [`WriteAction`] holds.
pub enum WriteActionView {
    Rewind,
    Read,
    Write(FlashProgress),
    Flush,
    Prepare,
    RewindTarget,
    ReadBack(usize),
    Report(FlashProgress),
    Finish(FlashReportView),
    Fail(FlashError),
}

impl View for WriteAction {
    type V = WriteActionView;

    open spec fn view(&self) -> WriteActionView {
        match *self {
            WriteAction::Rewind => WriteActionView::Rewind,
            WriteAction::Read => WriteActionView::Read,
            WriteAction::Write(progress) => WriteActionView::Write(progress),
            WriteAction::Flush => WriteActionView::Flush,
            WriteAction::Prepare => WriteActionView::Prepare,
            WriteAction::RewindTarget => WriteActionView::RewindTarget,
            WriteAction::ReadBack(limit) => WriteActionView::ReadBack(limit),
            WriteAction::Report(progress) => WriteActionView::Report(progress),
            WriteAction::Finish(report) => WriteActionView::Finish(report@),
            WriteAction::Fail(error) => WriteActionView::Fail(error),
        }
    }
}

/// The state of a write.
pub struct WriteState {
    pub options: FlashWriteOptions,
    /// The length of the image when it was opened.
    pub total: u64,
    pub phase: WritePhase,
    /// The bytes written to the target so far.
    pub written: Seq<u8>,
    /// The bytes read back from the target so far.
    pub read_back: Seq<u8>,
}

impl WriteState {
    /// What a write always keeps: nothing is read back before the write is complete, and never
    /// more than was written.
    pub open spec fn well_formed(self) -> bool {
        &&& self.written.len() <= u64::MAX
        &&& self.total <= self.options.target_capacity
        &&& self.read_back.len() <= self.written.len()
        &&& match self.phase {
            WritePhase::ReadingBack => self.options.verify && self.read_back.len()
                < self.written.len(),
            WritePhase::Preparing | WritePhase::RewindingTarget => self.options.verify
                && self.read_back.len() == 0,
            WritePhase::Reporting => self.options.verify,
            WritePhase::Closed => true,
            _ => self.read_back.len() == 0,
        }
    }

    /// Whether the event answers the access that the write waits for. A chunk read back is no
    /// longer than what was asked for, and the byte count of the write stays representable.
    pub open spec fn expects(self, event: AccessEvent) -> bool {
        match self.phase {
            WritePhase::Reading => event is Failed || (event matches AccessEvent::Chunk(chunk)
                && self.written.len() + chunk@.len() <= u64::MAX),
            WritePhase::ReadingBack => event is Failed || (event matches AccessEvent::Chunk(chunk)
                && chunk@.len() <= self.limit()),
            WritePhase::Closed => false,
            _ => event is Done || event is Failed,
        }
    }

    /// How many bytes the next access reads back: a buffer, but no more than is left.
    pub open spec fn limit(self) -> int {
        let left = self.written.len() - self.read_back.len();
        if left < BUFFER_SIZE {
            left
        } else {
            BUFFER_SIZE as int
        }
    }

    /// The state in another phase.
    pub open spec fn at(self, phase: WritePhase) -> WriteState {
        WriteState { phase, ..self }
    }

    /// The write gives up.
    pub open spec fn fail(self, error: FlashError) -> (WriteState, WriteActionView) {
        (self.at(WritePhase::Closed), WriteActionView::Fail(error))
    }

    /// The write is complete.
    pub open spec fn finish(self, verified: bool) -> (WriteState, WriteActionView) {
        (
            self.at(WritePhase::Closed),
            WriteActionView::Finish(
                FlashReportView {
                    bytes_written: self.written.len() as u64,
                    raw_sha256: digest::sha256_text(self.written),
                    verified,
                },
            ),
        )
    }

    /// The next read of the image, unless the user has cancelled.
    pub open spec fn read(self, wishes: Wishes) -> (WriteState, WriteActionView) {
        if wishes.cancelled {
            self.fail(FlashError::Cancelled)
        } else {
            (self.at(WritePhase::Reading), WriteActionView::Read)
        }
    }

    /// The next read of the target, or the verdict where everything has been read back.
    pub open spec fn read_back(self, wishes: Wishes) -> (WriteState, WriteActionView) {
        if self.read_back.len() < self.written.len() {
            if wishes.cancelled {
                self.fail(FlashError::Cancelled)
            } else if wishes.skip_verification {
                self.finish(false)
            } else {
                (
                    self.at(WritePhase::ReadingBack),
                    WriteActionView::ReadBack(self.limit() as usize),
                )
            }
        } else if digest::sha256(self.read_back) == digest::sha256(self.written) {
            self.finish(true)
        } else {
            self.fail(FlashError::Verification)
        }
    }

    /// What follows on an event.
    pub open spec fn step(self, event: AccessEvent, wishes: Wishes) -> (
        WriteState,
        WriteActionView,
    ) {
        match event {
            AccessEvent::Failed(message) => self.fail(FlashError::Io(message)),
            AccessEvent::Chunk(chunk) => if self.phase == WritePhase::Reading {
                let written = self.written + chunk@;
                if chunk@.len() == 0 {
                    (self.at(WritePhase::Flushing), WriteActionView::Flush)
                } else {
                    (
                        WriteState { phase: WritePhase::Writing, written, ..self },
                        WriteActionView::Write(
                            FlashProgress {
                                stage: FlashStage::Writing,
                                processed: written.len() as u64,
                                total: Some(self.total),
                            },
                        ),
                    )
                }
            } else {
                let read_back = self.read_back + chunk@;
                if chunk@.len() == 0 {
                    self.fail(FlashError::Verification)
                } else {
                    (
                        WriteState { phase: WritePhase::Reporting, read_back, ..self },
                        WriteActionView::Report(
                            FlashProgress {
                                stage: FlashStage::Verifying,
                                processed: read_back.len() as u64,
                                total: Some(self.written.len() as u64),
                            },
                        ),
                    )
                }
            },
            AccessEvent::Done => match self.phase {
                WritePhase::Rewinding | WritePhase::Writing => self.read(wishes),
                WritePhase::Flushing => if self.options.verify && !wishes.skip_verification {
                    (self.at(WritePhase::Preparing), WriteActionView::Prepare)
                } else {
                    self.finish(false)
                },
                WritePhase::Preparing => (
                    self.at(WritePhase::RewindingTarget),
                    WriteActionView::RewindTarget,
                ),
                _ => self.read_back(wishes),
            },
        }
    }
}

/// How a write begins, once the length of the opened image is known.
pub open spec fn write_start(options: FlashWriteOptions, total: u64) -> (
    WriteState,
    WriteActionView,
) {
    let state = WriteState {
        options,
        total,
        phase: WritePhase::Rewinding,
        written: Seq::empty(),
        read_back: Seq::empty(),
    };
    if total > options.target_capacity {
        state.fail(FlashError::TargetTooSmall)
    } else {
        (state, WriteActionView::Rewind)
    }
}

/// Writes an already opened raw image and optionally reads it back.
///
/// The image is the opened file itself, never its path, so the file that was validated is exactly
/// the file that is written.
pub struct RawWrite {
    options: FlashWriteOptions,
    total: u64,
    phase: WritePhase,
    written: u64,
    hasher: Hasher,
    read: u64,
    verify_hasher: Hasher,
}

impl View for RawWrite {
    type V = WriteState;

    closed spec fn view(&self) -> WriteState {
        WriteState {
            options: self.options,
            total: self.total,
            phase: self.phase,
            written: digest::hashed_bytes(self.hasher),
            read_back: digest::hashed_bytes(self.verify_hasher),
        }
    }
}

impl RawWrite {
    /// Whether the byte counts are those of the bytes, and the state one that a write can be in.
    pub closed spec fn well_formed(self) -> bool {
        &&& self.written == digest::hashed_bytes(self.hasher).len()
        &&& self.read == digest::hashed_bytes(self.verify_hasher).len()
        &&& self.phase == WritePhase::Closed || self@.well_formed()
    }

    fn fail(&mut self, error: FlashError) -> (action: WriteAction)
        requires
            old(self).well_formed(),
        ensures
            final(self).well_formed(),
            (final(self)@, action@) == old(self)@.fail(error),
    {
        self.phase = WritePhase::Closed;
        WriteAction::Fail(error)
    }

    fn finish(&mut self, verified: bool) -> (action: WriteAction)
        requires
            old(self).well_formed(),
        ensures
            final(self).well_formed(),
            (final(self)@, action@) == old(self)@.finish(verified),
    {
        self.phase = WritePhase::Closed;
        let digest = self.hasher.digest();
        WriteAction::Finish(
            FlashReport { bytes_written: self.written, raw_sha256: hex_encode(&digest), verified },
        )
    }

    fn read_back(&mut self, wishes: Wishes) -> (action: WriteAction)
        requires
            old(self).well_formed(),
            old(self)@.well_formed(),
            old(self)@.options.verify,
        ensures
            final(self).well_formed(),
            (final(self)@, action@) == old(self)@.read_back(wishes),
    {
        if self.read < self.written {
            if wishes.cancelled {
                return self.fail(FlashError::Cancelled);
            }
            if wishes.skip_verification {
                return self.finish(false);
            }
            let left: u64 = self.written - self.read;
            let limit: usize = if left < BUFFER_SIZE as u64 {
                left as usize
            } else {
                BUFFER_SIZE
            };
            self.phase = WritePhase::ReadingBack;
            return WriteAction::ReadBack(limit);
        }
        let written = self.hasher.digest();
        let read_back = self.verify_hasher.digest();
        if same_digest(&read_back, &written) {
            self.finish(true)
        } else {
            self.fail(FlashError::Verification)
        }
    }

    /// What to do next after an access. `wishes` are the user's at this moment.
    pub fn step(&mut self, event: &AccessEvent, wishes: Wishes) -> (action: WriteAction)
        requires
            old(self).well_formed(),
            old(self)@.expects(*event),
        ensures
            final(self).well_formed(),
            (final(self)@, action@) == old(self)@.step(*event, wishes),
    {
        match event {
            AccessEvent::Failed(message) => self.fail(FlashError::Io(message.clone())),
            AccessEvent::Chunk(chunk) => {
                let count: u64 = chunk.len() as u64;
                if self.phase == WritePhase::Reading {
                    if count == 0 {
                        self.phase = WritePhase::Flushing;
                        return WriteAction::Flush;
                    }
                    self.hasher.update(chunk.as_slice());
                    self.written = self.written + count;
                    self.phase = WritePhase::Writing;
                    WriteAction::Write(
                        FlashProgress {
                            stage: FlashStage::Writing,
                            processed: self.written,
                            total: Some(self.total),
                        },
                    )
                } else {
                    if count == 0 {
                        return self.fail(FlashError::Verification);
                    }
                    self.verify_hasher.update(chunk.as_slice());
                    self.read = self.read + count;
                    self.phase = WritePhase::Reporting;
                    WriteAction::Report(
                        FlashProgress {
                            stage: FlashStage::Verifying,
                            processed: self.read,
                            total: Some(self.written),
                        },
                    )
                }
            },
            AccessEvent::Done => match self.phase {
                WritePhase::Rewinding | WritePhase::Writing => {
                    if wishes.cancelled {
                        return self.fail(FlashError::Cancelled);
                    }
                    self.phase = WritePhase::Reading;
                    WriteAction::Read
                },
                WritePhase::Flushing => {
                    if self.options.verify && !wishes.skip_verification {
                        self.phase = WritePhase::Preparing;
                        WriteAction::Prepare
                    } else {
                        self.finish(false)
                    }
                },
                WritePhase::Preparing => {
                    self.phase = WritePhase::RewindingTarget;
                    WriteAction::RewindTarget
                },
                _ => self.read_back(wishes),
            },
        }
    }
}

/// Whether two digests are the same.
pub fn same_digest(left: &[u8; 32], right: &[u8; 32]) -> (same: bool)
    ensures
        same == (left@ == right@),
{
    let mut index: usize = 0;
    while index < 32
        invariant
            index <= 32,
            forall|i: int| 0 <= i < index ==> left@[i] == right@[i],
        decreases 32 - index,
    {
        if left[index] != right[index] {
            assert(left@[index as int] != right@[index as int]);
            return false;
        }
        index += 1;
    }
    assert(left@ =~= right@);
    true
}

// ---------------------------------------------------------------------------------------------
// What holds of a whole write
// ---------------------------------------------------------------------------------------------

/// Begin to write a raw image of `total` bytes.
pub fn write_raw(options: FlashWriteOptions, total: u64) -> (result: (RawWrite, WriteAction))
    ensures
        result.0.well_formed(),
        (result.0@, result.1@) == write_start(options, total),
{
    let mut write = RawWrite {
        options,
        total,
        phase: WritePhase::Rewinding,
        written: 0,
        hasher: Hasher::new(),
        read: 0,
        verify_hasher: Hasher::new(),
    };
    if total > options.target_capacity {
        write.phase = WritePhase::Closed;
        (write, WriteAction::Fail(FlashError::TargetTooSmall))
    } else {
        (write, WriteAction::Rewind)
    }
}

/// One event of a write, with the user's wishes at that moment.
pub type WriteInput = (AccessEvent, Wishes);

/// The state after a run of events.
pub open spec fn write_after(start: WriteState, inputs: Seq<WriteInput>) -> WriteState
    decreases inputs.len(),
{
    if inputs.len() == 0 {
        start
    } else {
        write_after(start, inputs.drop_last()).step(inputs.last().0, inputs.last().1).0
    }
}

/// Whether every event of the run answers the access that was asked for.
pub open spec fn write_accepts(start: WriteState, inputs: Seq<WriteInput>) -> bool
    decreases inputs.len(),
{
    inputs.len() == 0 || (write_accepts(start, inputs.drop_last()) && write_after(
        start,
        inputs.drop_last(),
    ).expects(inputs.last().0))
}

/// The bytes that were read from the image during a run, in their order.
pub open spec fn image_bytes(start: WriteState, inputs: Seq<WriteInput>) -> Seq<u8>
    decreases inputs.len(),
{
    if inputs.len() == 0 {
        Seq::empty()
    } else {
        let before = image_bytes(start, inputs.drop_last());
        if write_after(start, inputs.drop_last()).phase == WritePhase::Reading {
            before + inputs.last().0.bytes()
        } else {
            before
        }
    }
}

/// The bytes that were read back from the target during a run, in their order.
pub open spec fn target_bytes(start: WriteState, inputs: Seq<WriteInput>) -> Seq<u8>
    decreases inputs.len(),
{
    if inputs.len() == 0 {
        Seq::empty()
    } else {
        let before = target_bytes(start, inputs.drop_last());
        if write_after(start, inputs.drop_last()).phase == WritePhase::ReadingBack {
            before + inputs.last().0.bytes()
        } else {
            before
        }
    }
}

proof fn write_keeps_every_byte(
    options: FlashWriteOptions,
    total: u64,
    start: WriteState,
    inputs: Seq<WriteInput>,
)
    requires
        start == write_start(options, total).0,
        write_accepts(start, inputs),
    ensures
        ({
            let state = write_after(start, inputs);
            &&& state.written == image_bytes(start, inputs)
            &&& state.read_back == target_bytes(start, inputs)
            &&& state.options == options
            &&& state.total == total
            &&& state.phase != WritePhase::Closed ==> state.well_formed()
        }),
    decreases inputs.len(),
{
    if inputs.len() > 0 {
        write_keeps_every_byte(options, total, start, inputs.drop_last());
        let before = write_after(start, inputs.drop_last());
        assert(before.phase != WritePhase::Closed);
        assert(before.written + Seq::<u8>::empty() =~= before.written);
        assert(before.read_back + Seq::<u8>::empty() =~= before.read_back);
    }
}

/// A report accounts for every byte of the image: its count and digest are those of all bytes that
/// were read from it. It says `verified` only where reading back was asked for, as many bytes came
/// back from the target as were written, and their digest is that of the image.
pub proof fn report_is_what_was_written_and_read_back(
    options: FlashWriteOptions,
    total: u64,
    inputs: Seq<WriteInput>,
    event: AccessEvent,
    wishes: Wishes,
)
    requires
        write_accepts(write_start(options, total).0, inputs.push((event, wishes))),
    ensures
        ({
            let start = write_start(options, total).0;
            write_after(start, inputs).step(event, wishes).1 matches WriteActionView::Finish(report)
                ==> {
                let image = image_bytes(start, inputs);
                let target = target_bytes(start, inputs);
                &&& total <= options.target_capacity
                &&& report.bytes_written == image.len()
                &&& report.raw_sha256 == digest::sha256_text(image)
                &&& report.verified ==> {
                    &&& options.verify
                    &&& target.len() == image.len()
                    &&& digest::sha256(target) == digest::sha256(image)
                }
            }
        }),
{
    let start = write_start(options, total).0;
    assert(inputs.push((event, wishes)).drop_last() =~= inputs);
    write_keeps_every_byte(options, total, start, inputs);
}

/// The bytes reported while writing are those written so far, and grow with every report; the
/// bytes reported while reading back grow likewise and never exceed what was written.
pub proof fn write_progress_is_monotonic(
    options: FlashWriteOptions,
    total: u64,
    inputs: Seq<WriteInput>,
    event: AccessEvent,
    wishes: Wishes,
)
    requires
        write_accepts(write_start(options, total).0, inputs.push((event, wishes))),
    ensures
        ({
            let start = write_start(options, total).0;
            let before = write_after(start, inputs);
            match before.step(event, wishes).1 {
                WriteActionView::Write(progress) => progress.processed > before.written.len()
                    && progress.processed == image_bytes(
                    start,
                    inputs.push((event, wishes)),
                ).len(),
                WriteActionView::Report(progress) => progress.processed > before.read_back.len()
                    && progress.processed <= before.written.len() && progress.total == Some(
                    before.written.len() as u64,
                ),
                _ => true,
            }
        }),
{
    let start = write_start(options, total).0;
    assert(inputs.push((event, wishes)).drop_last() =~= inputs);
    write_keeps_every_byte(options, total, start, inputs);
    write_keeps_every_byte(options, total, start, inputs.push((event, wishes)));
}

/// Once the image has been read to its end, nothing is written to the target any more: skipping
/// the read-back or failing in it never rewrites anything.
pub proof fn nothing_is_written_after_the_flush(
    start: WriteState,
    inputs: Seq<WriteInput>,
    event: AccessEvent,
    wishes: Wishes,
)
    requires
        start.phase == WritePhase::Flushing,
        write_accepts(start, inputs.push((event, wishes))),
    ensures
        !(write_after(start, inputs).step(event, wishes).1 is Write),
        !(write_after(start, inputs).step(event, wishes).1 is Read),
        write_after(start, inputs).written == start.written,
    decreases inputs.len(),
{
    assert(inputs.push((event, wishes)).drop_last() =~= inputs);
    if inputs.len() > 0 {
        let head = inputs.drop_last();
        assert(head.push(inputs.last()) =~= inputs);
        nothing_is_written_after_the_flush(start, head, inputs.last().0, inputs.last().1);
        past_reading(start, inputs);
    }
}

proof fn past_reading(start: WriteState, inputs: Seq<WriteInput>)
    requires
        start.phase == WritePhase::Flushing,
        write_accepts(start, inputs),
    ensures
        ({
            let phase = write_after(start, inputs).phase;
            phase != WritePhase::Rewinding && phase != WritePhase::Reading && phase
                != WritePhase::Writing
        }),
    decreases inputs.len(),
{
    if inputs.len() > 0 {
        past_reading(start, inputs.drop_last());
    }
}

/// A wish to cancel that stands when a chunk has been written or read back stops the operation:
/// there is no further access, and the error is the cancellation.
pub proof fn cancelling_stops_before_the_next_chunk(state: WriteState, wishes: Wishes)
    requires
        state.well_formed(),
        wishes.cancelled,
        state.phase == WritePhase::Writing || state.phase == WritePhase::Rewinding || (state.phase
            == WritePhase::Reporting && state.read_back.len() < state.written.len()),
    ensures
        state.step(AccessEvent::Done, wishes).1 == WriteActionView::Fail(FlashError::Cancelled),
        state.step(AccessEvent::Done, wishes).0.phase == WritePhase::Closed,
{
}

/// Whether nothing disturbs an event: the access succeeded, and the user neither cancels nor skips.
pub open spec fn is_undisturbed(input: WriteInput) -> bool {
    !(input.0 is Failed) && !input.1.cancelled && !input.1.skip_verification
}

/// Whether the read of the image that an event answers found its end.
pub open spec fn ends_the_image(state: WriteState, event: AccessEvent) -> bool {
    state.phase == WritePhase::Reading && event is Chunk && event.bytes().len() == 0
}

/// Whether the image was read to its end during a run.
pub open spec fn image_was_read_to_its_end(start: WriteState, inputs: Seq<WriteInput>) -> bool {
    exists|i: int|
        0 <= i < inputs.len() && ends_the_image(
            #[trigger] write_after(start, inputs.take(i)),
            inputs[i].0,
        )
}

/// Whether the image has been read to its end in this phase.
spec fn is_past_the_image(phase: WritePhase) -> bool {
    phase == WritePhase::Flushing || phase == WritePhase::Preparing || phase
        == WritePhase::RewindingTarget || phase == WritePhase::ReadingBack || phase
        == WritePhase::Reporting
}

proof fn later_phases_follow_the_end(start: WriteState, inputs: Seq<WriteInput>)
    requires
        start.phase == WritePhase::Rewinding || start.phase == WritePhase::Closed,
        write_accepts(start, inputs),
        is_past_the_image(write_after(start, inputs).phase),
    ensures
        image_was_read_to_its_end(start, inputs),
    decreases inputs.len(),
{
    let front = inputs.drop_last();
    let last = inputs.len() - 1;
    assert(inputs.take(last) =~= front);
    let before = write_after(start, front);
    if is_past_the_image(before.phase) {
        later_phases_follow_the_end(start, front);
        let i = choose|i: int|
            0 <= i < front.len() && ends_the_image(
                #[trigger] write_after(start, front.take(i)),
                front[i].0,
            );
        assert(front.take(i) =~= inputs.take(i));
        assert(ends_the_image(write_after(start, inputs.take(i)), inputs[i].0));
    } else {
        assert(ends_the_image(write_after(start, inputs.take(last)), inputs[last].0));
    }
}

/// The whole image is written: the target is flushed exactly where a read of the image found its
/// end, and a report is handed out only after that. So a report is never one of a part of the image.
pub proof fn image_is_written_to_its_end(
    options: FlashWriteOptions,
    total: u64,
    inputs: Seq<WriteInput>,
    event: AccessEvent,
    wishes: Wishes,
)
    requires
        write_accepts(write_start(options, total).0, inputs),
        write_after(write_start(options, total).0, inputs).expects(event),
    ensures
        ({
            let start = write_start(options, total).0;
            let state = write_after(start, inputs);
            let action = state.step(event, wishes).1;
            &&& action is Flush <==> ends_the_image(state, event)
            &&& action is Finish ==> image_was_read_to_its_end(start, inputs)
            &&& action is Prepare || action is RewindTarget || action is ReadBack
                || action is Report ==> image_was_read_to_its_end(start, inputs)
        }),
{
    let start = write_start(options, total).0;
    let state = write_after(start, inputs);
    if is_past_the_image(state.phase) {
        later_phases_follow_the_end(start, inputs);
    }
}

/// Every chunk of the image is written as soon as it was read, and reading goes on until the image
/// ends: a chunk is followed by its write, with the count of all bytes so far, and the write by the
/// next read. Only a wish to cancel or a failed access ends this earlier.
pub proof fn every_chunk_is_written_and_reading_goes_on(
    state: WriteState,
    chunk: AccessEvent,
    first: Wishes,
    second: Wishes,
)
    requires
        state.phase == WritePhase::Reading,
        state.expects(chunk),
        chunk is Chunk,
        chunk.bytes().len() > 0,
    ensures
        ({
            let (writing, action) = state.step(chunk, first);
            let (after, next) = writing.step(AccessEvent::Done, second);
            &&& action == WriteActionView::Write(
                FlashProgress {
                    stage: FlashStage::Writing,
                    processed: (state.written.len() + chunk.bytes().len()) as u64,
                    total: Some(state.total),
                },
            )
            &&& after.written == state.written + chunk.bytes()
            &&& after.options == state.options && after.total == state.total
            &&& !second.cancelled ==> next is Read && after.phase == WritePhase::Reading
            &&& second.cancelled ==> next == WriteActionView::Fail(FlashError::Cancelled)
        }),
{
}

/// Whether these events bring the chunks of an image one by one: each chunk is read, not empty, and
/// then written, and nothing disturbs it.
pub open spec fn brings_chunks(inputs: Seq<WriteInput>) -> bool {
    &&& inputs.len() % 2 == 1
    &&& forall|i: int| #![trigger inputs[i]] 0 <= i < inputs.len() ==> is_undisturbed(inputs[i])
    &&& forall|i: int|
        #![trigger inputs[i]]
        0 <= i < inputs.len() ==> if i % 2 == 0 {
            inputs[i].0 is Done
        } else {
            inputs[i].0 is Chunk && inputs[i].0.bytes().len() > 0
        }
}

/// The bytes that the chunks among some events hold.
pub open spec fn chunk_bytes(inputs: Seq<WriteInput>) -> Seq<u8>
    decreases inputs.len(),
{
    if inputs.len() == 0 {
        Seq::empty()
    } else {
        chunk_bytes(inputs.drop_last()) + inputs.last().0.bytes()
    }
}

proof fn chunks_are_taken(options: FlashWriteOptions, total: u64, inputs: Seq<WriteInput>)
    requires
        total <= options.target_capacity,
        brings_chunks(inputs),
        chunk_bytes(inputs).len() <= u64::MAX,
    ensures
        ({
            let start = write_start(options, total).0;
            &&& write_accepts(start, inputs)
            &&& write_after(start, inputs) == (WriteState {
                options,
                total,
                phase: WritePhase::Reading,
                written: chunk_bytes(inputs),
                read_back: Seq::empty(),
            })
        }),
    decreases inputs.len(),
{
    let start = write_start(options, total).0;
    let front = inputs.drop_last();
    assert(inputs.last() == inputs[inputs.len() - 1]);
    if inputs.len() == 1 {
        assert(front =~= Seq::empty());
        assert(chunk_bytes(front) =~= Seq::<u8>::empty());
        assert(inputs.last().0.bytes() =~= Seq::<u8>::empty());
        assert(chunk_bytes(inputs) =~= Seq::<u8>::empty());
        assert(write_accepts(start, front));
        assert(start.read_back =~= Seq::<u8>::empty());
        assert(write_after(start, front) == start);
    } else {
        let rest = front.drop_last();
        assert(front.last() == inputs[inputs.len() - 2]);
        assert forall|i: int| #![trigger rest[i]] 0 <= i < rest.len() implies rest[i]
            == inputs[i] by {}
        assert(chunk_bytes(inputs) =~= chunk_bytes(front));
        assert(chunk_bytes(front) =~= chunk_bytes(rest) + front.last().0.bytes());
        chunks_are_taken(options, total, rest);
        let before = write_after(start, rest);
        assert(write_accepts(start, front));
        assert(write_after(start, front) == before.step(front.last().0, front.last().1).0);
        assert(write_accepts(start, inputs));
    }
}

/// An undisturbed write of an image that fits takes all of it: after any chunks the next one is
/// asked for, and when the image has ended, everything is flushed. Without reading back, the report
/// then is of the whole image.
pub proof fn undisturbed_write_takes_the_whole_image(
    options: FlashWriteOptions,
    total: u64,
    inputs: Seq<WriteInput>,
    end: WriteInput,
    flushed: WriteInput,
)
    requires
        total <= options.target_capacity,
        brings_chunks(inputs),
        chunk_bytes(inputs).len() <= u64::MAX,
        is_undisturbed(end) && end.0 is Chunk && end.0.bytes().len() == 0,
        is_undisturbed(flushed) && flushed.0 is Done,
    ensures
        ({
            let start = write_start(options, total).0;
            let before = write_after(start, inputs.drop_last()).step(
                inputs.last().0,
                inputs.last().1,
            );
            let ended = write_after(start, inputs).step(end.0, end.1);
            let done = ended.0.step(flushed.0, flushed.1);
            let image = chunk_bytes(inputs);
            &&& write_accepts(start, inputs)
            &&& before.1 is Read
            &&& ended.1 is Flush
            &&& !options.verify ==> done.1 == WriteActionView::Finish(
                FlashReportView {
                    bytes_written: image.len() as u64,
                    raw_sha256: digest::sha256_text(image),
                    verified: false,
                },
            )
            &&& options.verify ==> done.1 is Prepare && done.0.written == image
        }),
{
    chunks_are_taken(options, total, inputs);
    let front = inputs.drop_last();
    if inputs.len() > 1 {
        let rest = front.drop_last();
        assert forall|i: int| #![trigger rest[i]] 0 <= i < rest.len() implies rest[i]
            == inputs[i] by {}
        assert(front.last() == inputs[inputs.len() - 2]);
        assert(inputs.last() == inputs[inputs.len() - 1]);
        assert(chunk_bytes(inputs) =~= chunk_bytes(front));
        assert(chunk_bytes(front) =~= chunk_bytes(rest) + front.last().0.bytes());
        chunks_are_taken(options, total, rest);
    } else {
        assert(inputs.last() == inputs[0]);
    }
}

/// The target is read back from its first byte to its last, and only then judged: it is made ready
/// and rewound, each read asks for a buffer or for what is left, and every chunk that comes back is
/// reported. When as many bytes came back as were written, the write is verified exactly where they
/// have the digest of the image.
pub proof fn target_is_read_back_whole(state: WriteState, chunk: AccessEvent, wishes: Wishes)
    requires
        state.well_formed(),
        !wishes.cancelled,
        !wishes.skip_verification,
    ensures
        state.phase == WritePhase::Flushing ==> (state.step(AccessEvent::Done, wishes).1
            is Prepare <==> state.options.verify),
        state.phase == WritePhase::Preparing ==> state.step(AccessEvent::Done, wishes).1
            is RewindTarget,
        state.phase == WritePhase::RewindingTarget || state.phase == WritePhase::Reporting ==> {
            let action = state.step(AccessEvent::Done, wishes).1;
            let left = state.written.len() - state.read_back.len();
            if left > 0 {
                action matches WriteActionView::ReadBack(most) && 0 < most <= left && most
                    <= BUFFER_SIZE && (most == left || most == BUFFER_SIZE)
            } else if digest::sha256(state.read_back) == digest::sha256(state.written) {
                action == WriteActionView::Finish(
                    FlashReportView {
                        bytes_written: state.written.len() as u64,
                        raw_sha256: digest::sha256_text(state.written),
                        verified: true,
                    },
                )
            } else {
                action == WriteActionView::Fail(FlashError::Verification)
            }
        },
        state.phase == WritePhase::ReadingBack && chunk is Chunk && state.expects(chunk)
            && chunk.bytes().len() > 0 ==> {
            let (after, action) = state.step(chunk, wishes);
            &&& after.read_back == state.read_back + chunk.bytes()
            &&& after.written == state.written
            &&& after.phase == WritePhase::Reporting
            &&& action == WriteActionView::Report(
                FlashProgress {
                    stage: FlashStage::Verifying,
                    processed: (state.read_back.len() + chunk.bytes().len()) as u64,
                    total: Some(state.written.len() as u64),
                },
            )
        },
{
}

/// A write fails only for a reason, and the error is that reason: an access that failed, an image
/// that does not fit, a wish to cancel, or a target that does not give the image back.
pub proof fn failed_write_has_its_reason(
    options: FlashWriteOptions,
    total: u64,
    state: WriteState,
    event: AccessEvent,
    wishes: Wishes,
)
    requires
        state.well_formed(),
        state.expects(event),
    ensures
        write_start(options, total).1 is Fail <==> total > options.target_capacity,
        write_start(options, total).1 matches WriteActionView::Fail(error) ==> error
            == FlashError::TargetTooSmall,
        write_start(options, total).1 is Fail || write_start(options, total).1 is Rewind,
        event matches AccessEvent::Failed(cause) ==> state.step(event, wishes).1
            == WriteActionView::Fail(FlashError::Io(cause)),
        state.step(event, wishes).1 matches WriteActionView::Fail(error) ==> match error {
            FlashError::Io(cause) => event == AccessEvent::Failed(cause),
            FlashError::Cancelled => wishes.cancelled && event is Done,
            FlashError::Verification => {
                ||| state.phase == WritePhase::ReadingBack && event.bytes().len() == 0
                ||| state.read_back.len() == state.written.len() && digest::sha256(state.read_back)
                    != digest::sha256(state.written)
            },
            _ => false,
        },
{
}

/// The read-back is left out exactly where it was not asked for, or where the user skips it before
/// it is complete: the write then finishes unverified, with the report of all that was written.
pub proof fn skipped_read_back_finishes_unverified(state: WriteState, wishes: Wishes)
    requires
        state.well_formed(),
        !wishes.cancelled,
        state.phase == WritePhase::Flushing || ((state.phase == WritePhase::RewindingTarget
            || state.phase == WritePhase::Reporting) && state.read_back.len()
            < state.written.len()),
    ensures
        ({
            let action = state.step(AccessEvent::Done, wishes).1;
            let left_out = wishes.skip_verification || !state.options.verify;
            &&& action is Finish <==> left_out
            &&& action matches WriteActionView::Finish(report) ==> {
                &&& !report.verified
                &&& report.bytes_written == state.written.len()
                &&& report.raw_sha256 == digest::sha256_text(state.written)
            }
        }),
{
}

/// A target that ends before the whole image is read back is refused, and so is one that gives back
/// other bytes: neither is ever reported as written.
pub proof fn faulty_target_is_refused(state: WriteState, event: AccessEvent, wishes: Wishes)
    requires
        state.well_formed(),
        state.expects(event),
    ensures
        state.phase == WritePhase::ReadingBack && event is Chunk && event.bytes().len() == 0
            ==> state.step(event, wishes).1 == WriteActionView::Fail(FlashError::Verification),
        state.phase == WritePhase::Reporting && event is Done && !wishes.cancelled
            && !wishes.skip_verification && state.read_back.len() == state.written.len()
            && digest::sha256(state.read_back) != digest::sha256(state.written) ==> state.step(
            event,
            wishes,
        ).1 == WriteActionView::Fail(FlashError::Verification),
{
}

} // verus!
