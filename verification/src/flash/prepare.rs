//! Decompressing an archive to an ordinary file before privileged target access begins.

use vstd::prelude::*;

use crate::digest;
use crate::digest::{hex_encode, Hasher};
use crate::flash;
use crate::text;
use crate::flash::{
    digest_is_accepted, AccessEvent, FlashError, FlashProgress, FlashStage, PreparedImage,
    PreparedImageView,
};

verus! {

broadcast use vstd::seq_lib::group_seq_properties;

/// What a preparation waits for.
#[derive(Clone, Copy, Debug, PartialEq, Eq, Structural)]
pub enum PreparePhase {
    /// The archive and the output file are to be opened.
    Opening,
    /// A chunk is to be decompressed.
    Reading,
    /// A chunk is to be written.
    Writing,
    /// The output is to be flushed.
    Flushing,
    /// The preparation is over.
    Closed,
}

/// What to do next.
#[derive(Debug)]
pub enum PrepareAction {
    /// Decompress the next chunk, of at most [`BUFFER_SIZE`] bytes.
    Read,
    /// Write the chunk that was read, then report this progress.
    Write(FlashProgress),
    /// Flush the output file.
    Flush,
    /// Hand out the prepared image.
    Finish(PreparedImage),
    /// Remove the output file and report the error.
    Abandon(FlashError),
}

/// What a [`PrepareAction`] holds.
pub enum PrepareActionView {
    Read,
    Write(FlashProgress),
    Flush,
    Finish(PreparedImageView),
    Abandon(FlashError),
}

impl View for PrepareAction {
    type V = PrepareActionView;

    open spec fn view(&self) -> PrepareActionView {
        match *self {
            PrepareAction::Read => PrepareActionView::Read,
            PrepareAction::Write(progress) => PrepareActionView::Write(progress),
            PrepareAction::Flush => PrepareActionView::Flush,
            PrepareAction::Finish(image) => PrepareActionView::Finish(image@),
            PrepareAction::Abandon(error) => PrepareActionView::Abandon(error),
        }
    }
}

/// The state of a preparation.
pub struct PrepareState {
    pub expected_size: Option<u64>,
    pub expected_sha256: Option<Seq<char>>,
    pub phase: PreparePhase,
    /// The decompressed bytes so far.
    pub received: Seq<u8>,
}

impl PrepareState {
    /// Whether the event answers the access that the preparation waits for.
    pub open spec fn expects(self, event: AccessEvent) -> bool {
        match self.phase {
            PreparePhase::Opening => event is Done || event is Failed,
            PreparePhase::Reading => event is Chunk || event is Failed,
            PreparePhase::Writing => event is Done || event is Failed,
            PreparePhase::Flushing => event is Done || event is Failed,
            PreparePhase::Closed => false,
        }
    }

    /// The state in another phase.
    pub open spec fn at(self, phase: PreparePhase) -> PrepareState {
        PrepareState { phase, ..self }
    }

    /// The preparation gives up.
    pub open spec fn abandon(self, error: FlashError) -> (PrepareState, PrepareActionView) {
        (self.at(PreparePhase::Closed), PrepareActionView::Abandon(error))
    }

    /// The next read, unless the user has cancelled.
    pub open spec fn read(self, cancelled: bool) -> (PrepareState, PrepareActionView) {
        if cancelled {
            self.abandon(FlashError::Cancelled)
        } else {
            (self.at(PreparePhase::Reading), PrepareActionView::Read)
        }
    }

    /// Whether this many bytes are within the expected size.
    pub open spec fn within(self, bytes: nat) -> bool {
        bytes <= u64::MAX && (self.expected_size matches Some(size) ==> bytes <= size)
    }

    /// What follows on an event.
    pub open spec fn step(self, event: AccessEvent, cancelled: bool) -> (
        PrepareState,
        PrepareActionView,
    ) {
        match event {
            AccessEvent::Failed(message) => self.abandon(FlashError::Io(message)),
            AccessEvent::Chunk(chunk) => {
                let received = self.received + chunk@;
                if chunk@.len() == 0 {
                    (self.at(PreparePhase::Flushing), PrepareActionView::Flush)
                } else if !self.within(received.len()) {
                    self.abandon(FlashError::RawSize)
                } else {
                    (
                        PrepareState { phase: PreparePhase::Writing, received, ..self },
                        PrepareActionView::Write(
                            FlashProgress {
                                stage: FlashStage::Decompressing,
                                processed: received.len() as u64,
                                total: self.expected_size,
                            },
                        ),
                    )
                }
            },
            AccessEvent::Done => if self.phase == PreparePhase::Flushing {
                if self.expected_size matches Some(size) && self.received.len() != size {
                    self.abandon(FlashError::RawSize)
                } else if !flash::digest_accepted(
                    self.expected_sha256,
                    digest::sha256_text(self.received),
                ) {
                    self.abandon(FlashError::Verification)
                } else {
                    (
                        self.at(PreparePhase::Closed),
                        PrepareActionView::Finish(
                            PreparedImageView {
                                bytes: self.received.len() as u64,
                                raw_sha256: digest::sha256_text(self.received),
                            },
                        ),
                    )
                }
            } else {
                self.read(cancelled)
            },
        }
    }
}

/// Decompresses an archive to an ordinary file before privileged target access begins.
pub struct Preparation {
    expected_size: Option<u64>,
    expected_sha256: Option<String>,
    phase: PreparePhase,
    written: u64,
    hasher: Hasher,
}

impl View for Preparation {
    type V = PrepareState;

    closed spec fn view(&self) -> PrepareState {
        PrepareState {
            expected_size: self.expected_size,
            expected_sha256: text::optional_text(self.expected_sha256),
            phase: self.phase,
            received: digest::hashed_bytes(self.hasher),
        }
    }
}

impl Preparation {
    /// Whether the byte count is that of the bytes received.
    pub closed spec fn well_formed(self) -> bool {
        self.written == digest::hashed_bytes(self.hasher).len()
    }

    fn abandon(&mut self, error: FlashError) -> (action: PrepareAction)
        requires
            old(self).well_formed(),
        ensures
            final(self).well_formed(),
            (final(self)@, action@) == old(self)@.abandon(error),
    {
        self.phase = PreparePhase::Closed;
        PrepareAction::Abandon(error)
    }

    /// What to do next after an access. `cancelled` is the user's wish at this moment.
    pub fn step(&mut self, event: &AccessEvent, cancelled: bool) -> (action: PrepareAction)
        requires
            old(self).well_formed(),
            old(self)@.expects(*event),
        ensures
            final(self).well_formed(),
            (final(self)@, action@) == old(self)@.step(*event, cancelled),
    {
        match event {
            AccessEvent::Failed(message) => self.abandon(FlashError::Io(message.clone())),
            AccessEvent::Chunk(chunk) => {
                if chunk.len() == 0 {
                    self.phase = PreparePhase::Flushing;
                    return PrepareAction::Flush;
                }
                let count: u64 = chunk.len() as u64;
                let written: u64 = match self.written.checked_add(count) {
                    Some(sum) => sum,
                    None => {
                        return self.abandon(FlashError::RawSize);
                    },
                };
                if let Some(size) = self.expected_size {
                    if written > size {
                        return self.abandon(FlashError::RawSize);
                    }
                }
                self.hasher.update(chunk.as_slice());
                self.written = written;
                self.phase = PreparePhase::Writing;
                PrepareAction::Write(
                    FlashProgress {
                        stage: FlashStage::Decompressing,
                        processed: written,
                        total: self.expected_size,
                    },
                )
            },
            AccessEvent::Done => {
                if self.phase != PreparePhase::Flushing {
                    if cancelled {
                        return self.abandon(FlashError::Cancelled);
                    }
                    self.phase = PreparePhase::Reading;
                    return PrepareAction::Read;
                }
                if let Some(size) = self.expected_size {
                    if self.written != size {
                        return self.abandon(FlashError::RawSize);
                    }
                }
                let digest = self.hasher.digest();
                let raw_sha256 = hex_encode(&digest);
                if !digest_is_accepted(&self.expected_sha256, raw_sha256.as_str()) {
                    return self.abandon(FlashError::Verification);
                }
                self.phase = PreparePhase::Closed;
                PrepareAction::Finish(PreparedImage { bytes: self.written, raw_sha256 })
            },
        }
    }
}

/// Begin to decompress an archive to an ordinary file. An expectation that is absent is not
/// checked. The first thing to do is to open both files.
pub fn prepare_gzip(expected_size: Option<u64>, expected_raw_sha256: Option<String>) -> (result:
    Preparation)
    ensures
        result.well_formed(),
        result@ == (PrepareState {
            expected_size,
            expected_sha256: text::optional_text(expected_raw_sha256),
            phase: PreparePhase::Opening,
            received: Seq::empty(),
        }),
{
    Preparation {
        expected_size,
        expected_sha256: expected_raw_sha256,
        phase: PreparePhase::Opening,
        written: 0,
        hasher: Hasher::new(),
    }
}

/// One event of a preparation, with the user's wish to cancel at that moment.
pub type PrepareInput = (AccessEvent, bool);

/// The state after a run of events.
pub open spec fn prepare_after(start: PrepareState, inputs: Seq<PrepareInput>) -> PrepareState
    decreases inputs.len(),
{
    if inputs.len() == 0 {
        start
    } else {
        prepare_after(start, inputs.drop_last()).step(inputs.last().0, inputs.last().1).0
    }
}

/// Whether every event of the run answers the access that was asked for.
pub open spec fn prepare_accepts(start: PrepareState, inputs: Seq<PrepareInput>) -> bool
    decreases inputs.len(),
{
    inputs.len() == 0 || (prepare_accepts(start, inputs.drop_last()) && prepare_after(
        start,
        inputs.drop_last(),
    ).expects(inputs.last().0))
}

/// All bytes that the events of a run brought, in their order.
pub open spec fn prepare_bytes(inputs: Seq<PrepareInput>) -> Seq<u8>
    decreases inputs.len(),
{
    if inputs.len() == 0 {
        Seq::empty()
    } else {
        prepare_bytes(inputs.drop_last()) + inputs.last().0.bytes()
    }
}

proof fn prepare_keeps_every_byte(start: PrepareState, inputs: Seq<PrepareInput>)
    requires
        start.phase == PreparePhase::Opening,
        start.received.len() == 0,
        prepare_accepts(start, inputs),
    ensures
        prepare_after(start, inputs).phase != PreparePhase::Closed ==> prepare_after(
            start,
            inputs,
        ).received == prepare_bytes(inputs),
        prepare_after(start, inputs).expected_size == start.expected_size,
        prepare_after(start, inputs).expected_sha256 == start.expected_sha256,
        prepare_after(start, inputs).received.len() > 0 ==> start.within(
            prepare_after(start, inputs).received.len(),
        ),
    decreases inputs.len(),
{
    if inputs.len() > 0 {
        prepare_keeps_every_byte(start, inputs.drop_last());
        let before = prepare_after(start, inputs.drop_last());
        assert(before.phase != PreparePhase::Closed);
        assert(before.received + Seq::<u8>::empty() =~= before.received);
    } else {
        assert(start.received =~= Seq::<u8>::empty());
    }
}

/// A prepared image accounts for every decompressed byte: its size and digest are those of all
/// bytes that were read, in order, and they meet what the release manifest promised.
pub proof fn prepared_image_is_what_was_read(
    start: PrepareState,
    inputs: Seq<PrepareInput>,
    event: AccessEvent,
    cancelled: bool,
)
    requires
        start.phase == PreparePhase::Opening,
        start.received.len() == 0,
        prepare_accepts(start, inputs.push((event, cancelled))),
    ensures
        prepare_after(start, inputs).step(event, cancelled).1 matches PrepareActionView::Finish(
            image,
        ) ==> {
            let bytes = prepare_bytes(inputs);
            &&& image.bytes == bytes.len()
            &&& image.raw_sha256 == digest::sha256_text(bytes)
            &&& start.expected_size matches Some(size) ==> bytes.len() == size
            &&& flash::digest_accepted(start.expected_sha256, digest::sha256_text(bytes))
        },
{
    assert(inputs.push((event, cancelled)).drop_last() =~= inputs);
    prepare_keeps_every_byte(start, inputs);
}

/// A preparation never asks for a write that would exceed the expected size, and reports exactly
/// the number of bytes written so far.
pub proof fn prepared_writes_stay_within_the_expected_size(
    start: PrepareState,
    inputs: Seq<PrepareInput>,
    event: AccessEvent,
    cancelled: bool,
)
    requires
        start.phase == PreparePhase::Opening,
        start.received.len() == 0,
        prepare_accepts(start, inputs.push((event, cancelled))),
    ensures
        prepare_after(start, inputs).step(event, cancelled).1 matches PrepareActionView::Write(
            progress,
        ) ==> {
            &&& progress.processed == prepare_bytes(inputs.push((event, cancelled))).len()
            &&& start.expected_size matches Some(size) ==> progress.processed <= size
        },
{
    assert(inputs.push((event, cancelled)).drop_last() =~= inputs);
    prepare_keeps_every_byte(start, inputs);
    prepare_keeps_every_byte(start, inputs.push((event, cancelled)));
}

/// Every decompressed chunk within the expected size is written as soon as it was read, with the
/// count of all bytes so far against that size, and reading goes on until the archive ends; only
/// then is the image flushed. A chunk beyond the expected size is refused before it is written.
pub proof fn every_chunk_within_the_size_is_written(
    state: PrepareState,
    chunk: AccessEvent,
    first: bool,
    second: bool,
)
    requires
        state.phase == PreparePhase::Reading,
        chunk is Chunk,
    ensures
        ({
            let now = state.received.len() + chunk.bytes().len();
            let fits = now <= u64::MAX && (state.expected_size matches Some(size) ==> now <= size);
            let (writing, action) = state.step(chunk, first);
            let (after, next) = writing.step(AccessEvent::Done, second);
            &&& action is Flush <==> chunk.bytes().len() == 0
            &&& chunk.bytes().len() > 0 && fits ==> {
                &&& action == PrepareActionView::Write(
                    FlashProgress {
                        stage: FlashStage::Decompressing,
                        processed: now as u64,
                        total: state.expected_size,
                    },
                )
                &&& !second ==> next is Read && after == (PrepareState {
                    received: state.received + chunk.bytes(),
                    ..state
                })
                &&& second ==> next == PrepareActionView::Abandon(FlashError::Cancelled)
            }
            &&& chunk.bytes().len() > 0 && !fits ==> action == PrepareActionView::Abandon(
                FlashError::RawSize,
            )
        }),
{
}

/// When the archive has ended and everything is flushed, the image is handed out exactly where it has
/// the expected size and, without regard to case, the expected digest; and then with the number and
/// the digest of all its bytes.
pub proof fn flushed_image_is_judged(state: PrepareState, cancelled: bool)
    requires
        state.phase == PreparePhase::Flushing,
        state.received.len() <= u64::MAX,
    ensures
        ({
            let action = state.step(AccessEvent::Done, cancelled).1;
            let right_size = state.expected_size matches Some(size) ==> state.received.len() == size;
            let right_digest = state.expected_sha256 matches Some(wanted) ==> text::lower_text(
                wanted,
            ) == text::lower_text(digest::sha256_text(state.received));
            &&& right_size && right_digest ==> action == PrepareActionView::Finish(
                PreparedImageView {
                    bytes: state.received.len() as u64,
                    raw_sha256: digest::sha256_text(state.received),
                },
            )
            &&& !right_size ==> action == PrepareActionView::Abandon(FlashError::RawSize)
            &&& right_size && !right_digest ==> action == PrepareActionView::Abandon(
                FlashError::Verification,
            )
        }),
{
}

/// A preparation is abandoned only for a reason, and the error is that reason.
pub proof fn abandoned_preparation_has_its_reason(
    state: PrepareState,
    event: AccessEvent,
    cancelled: bool,
)
    requires
        state.expects(event),
    ensures
        event matches AccessEvent::Failed(cause) ==> state.step(event, cancelled).1
            == PrepareActionView::Abandon(FlashError::Io(cause)),
        state.step(event, cancelled).1 matches PrepareActionView::Abandon(error) ==> match error {
            FlashError::Io(cause) => event == AccessEvent::Failed(cause),
            FlashError::Cancelled => cancelled && event is Done && (state.phase
                == PreparePhase::Opening || state.phase == PreparePhase::Writing),
            FlashError::RawSize => {
                let now = state.received.len() + event.bytes().len();
                now > u64::MAX || (state.expected_size matches Some(size) && now != size)
            },
            FlashError::Verification => state.expected_sha256 matches Some(wanted)
                && text::lower_text(wanted) != text::lower_text(
                digest::sha256_text(state.received),
            ),
            _ => false,
        },
        state.phase == PreparePhase::Opening && !cancelled && event is Done ==> state.step(
            event,
            cancelled,
        ).1 is Read,
{
}

/// Whether the archive was decompressed to its end during a run.
pub open spec fn archive_was_read_to_its_end(
    start: PrepareState,
    inputs: Seq<PrepareInput>,
) -> bool {
    exists|i: int|
        0 <= i < inputs.len() && (#[trigger] prepare_after(start, inputs.take(i))).phase
            == PreparePhase::Reading && inputs[i].0 is Chunk && inputs[i].0.bytes().len() == 0
}

proof fn flushing_follows_the_end(start: PrepareState, inputs: Seq<PrepareInput>)
    requires
        start.phase == PreparePhase::Opening,
        prepare_accepts(start, inputs),
        prepare_after(start, inputs).phase == PreparePhase::Flushing,
    ensures
        archive_was_read_to_its_end(start, inputs),
{
    let last = inputs.len() - 1;
    assert(inputs.take(last) =~= inputs.drop_last());
    assert(prepare_after(start, inputs.take(last)).phase == PreparePhase::Reading);
}

/// An image is handed out only after the archive was decompressed to its end: never a part of it.
pub proof fn image_is_prepared_to_its_end(
    start: PrepareState,
    inputs: Seq<PrepareInput>,
    event: AccessEvent,
    cancelled: bool,
)
    requires
        start.phase == PreparePhase::Opening,
        prepare_accepts(start, inputs),
        prepare_after(start, inputs).expects(event),
        prepare_after(start, inputs).step(event, cancelled).1 is Finish,
    ensures
        archive_was_read_to_its_end(start, inputs),
{
    flushing_follows_the_end(start, inputs);
}

/// A cancelled preparation stops before the next chunk, and one that grows beyond the size that was
/// expected is abandoned at the chunk that does.
pub proof fn spoiled_preparation_is_abandoned(state: PrepareState, event: AccessEvent)
    requires
        state.expects(event),
    ensures
        event is Done && (state.phase == PreparePhase::Opening || state.phase
            == PreparePhase::Writing) ==> state.step(event, true).1 == PrepareActionView::Abandon(
            FlashError::Cancelled,
        ),
        event is Chunk && event.bytes().len() > 0 && (state.expected_size matches Some(size)
            && state.received.len() + event.bytes().len() > size) ==> state.step(event, false).1
            == PrepareActionView::Abandon(FlashError::RawSize),
{
}

} // verus!
