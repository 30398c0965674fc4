//! Decompressing a verified archive straight into a target.

use vstd::prelude::*;

use crate::digest;
use crate::digest::{hex_encode, Hasher};
use crate::flash;
use crate::text;
use crate::flash::raw::same_digest;
use crate::flash::{
    digest_is_accepted, AccessEvent, FlashError, FlashReport, FlashReportView, BUFFER_SIZE,
};

verus! {

broadcast use vstd::seq_lib::group_seq_properties;

/// What the operation waits for.
#[derive(Clone, Copy, Debug, PartialEq, Eq, Structural)]
pub enum GzipPhase {
    /// The target is to be set to its first byte and the archive to be opened.
    Opening,
    /// A chunk is to be decompressed.
    Reading,
    /// A chunk is to be written to the target.
    Writing,
    /// The target is to be flushed.
    Flushing,
    /// The target is to be set to its first byte again.
    Rewinding,
    /// A chunk of the target is to be read back.
    ReadingBack,
    /// The operation is over.
    Closed,
}

/// What to do next.
#[derive(Debug)]
pub enum GzipAction {
    /// Decompress the next chunk, of at most [`BUFFER_SIZE`] bytes.
    Read,
    /// Write the chunk that was read to the target.
    Write,
    /// Flush the target.
    Flush,
    /// Set the target to its first byte.
    Rewind,
    /// Read at most this many bytes back from the target.
    ReadBack(usize),
    /// Hand out the report.
    Finish(FlashReport),
    /// Report the error.
    Fail(FlashError),
}

/// What a [`GzipAction`] holds.
pub enum GzipActionView {
    Read,
    Write,
    Flush,
    Rewind,
    ReadBack(usize),
    Finish(FlashReportView),
    Fail(FlashError),
}

impl View for GzipAction {
    type V = GzipActionView;

    open spec fn view(&self) -> GzipActionView {
        match *self {
            GzipAction::Read => GzipActionView::Read,
            GzipAction::Write => GzipActionView::Write,
            GzipAction::Flush => GzipActionView::Flush,
            GzipAction::Rewind => GzipActionView::Rewind,
            GzipAction::ReadBack(limit) => GzipActionView::ReadBack(limit),
            GzipAction::Finish(report) => GzipActionView::Finish(report@),
            GzipAction::Fail(error) => GzipActionView::Fail(error),
        }
    }
}

/// The state of the operation.
pub struct GzipState {
    pub target_capacity: u64,
    pub expected_sha256: Option<Seq<char>>,
    pub verify: bool,
    pub phase: GzipPhase,
    /// The bytes written to the target so far.
    pub written: Seq<u8>,
    /// The bytes read back from the target so far.
    pub read_back: Seq<u8>,
}

impl GzipState {
    /// What the operation always keeps: the target is never overrun, and no more is read back
    /// than was written.
    pub open spec fn well_formed(self) -> bool {
        &&& self.written.len() <= self.target_capacity
        &&& self.read_back.len() <= self.written.len()
        &&& match self.phase {
            GzipPhase::ReadingBack => self.verify && self.read_back.len() < self.written.len()
                && flash::digest_accepted(
                self.expected_sha256,
                digest::sha256_text(self.written),
            ),
            GzipPhase::Rewinding => self.verify && self.read_back.len() == 0
                && flash::digest_accepted(
                self.expected_sha256,
                digest::sha256_text(self.written),
            ),
            GzipPhase::Closed => true,
            _ => self.read_back.len() == 0,
        }
    }

    /// Whether the event answers the access that the operation waits for.
    pub open spec fn expects(self, event: AccessEvent) -> bool {
        match self.phase {
            GzipPhase::Reading => event is Chunk || event is Failed,
            GzipPhase::ReadingBack => event is Failed || (event matches AccessEvent::Chunk(chunk)
                && chunk@.len() <= self.limit()),
            GzipPhase::Closed => false,
            _ => event is Done || event is Failed,
        }
    }

    /// How many bytes the next access reads back: a buffer, but no more than is left.
    pub open spec fn limit(self) -> int {
        let left = self.written.len() - self.read_back.len();
        if left < BUFFER_SIZE {
            left
        } else {
            BUFFER_SIZE as int
        }
    }

    /// The state in another phase.
    pub open spec fn at(self, phase: GzipPhase) -> GzipState {
        GzipState { phase, ..self }
    }

    /// The operation gives up.
    pub open spec fn fail(self, error: FlashError) -> (GzipState, GzipActionView) {
        (self.at(GzipPhase::Closed), GzipActionView::Fail(error))
    }

    /// The operation is complete.
    pub open spec fn finish(self) -> (GzipState, GzipActionView) {
        (
            self.at(GzipPhase::Closed),
            GzipActionView::Finish(
                FlashReportView {
                    bytes_written: self.written.len() as u64,
                    raw_sha256: digest::sha256_text(self.written),
                    verified: self.verify,
                },
            ),
        )
    }

    /// The next read of the target, or the verdict where everything has been read back.
    pub open spec fn read_back(self, cancelled: bool) -> (GzipState, GzipActionView) {
        if self.read_back.len() < self.written.len() {
            if cancelled {
                self.fail(FlashError::Cancelled)
            } else {
                (
                    self.at(GzipPhase::ReadingBack),
                    GzipActionView::ReadBack(self.limit() as usize),
                )
            }
        } else if digest::sha256(self.read_back) == digest::sha256(self.written) {
            self.finish()
        } else {
            self.fail(FlashError::Verification)
        }
    }

    /// What follows on an event.
    pub open spec fn step(self, event: AccessEvent, cancelled: bool) -> (
        GzipState,
        GzipActionView,
    ) {
        match event {
            AccessEvent::Failed(message) => self.fail(FlashError::Io(message)),
            AccessEvent::Chunk(chunk) => if self.phase == GzipPhase::Reading {
                let written = self.written + chunk@;
                if chunk@.len() == 0 {
                    (self.at(GzipPhase::Flushing), GzipActionView::Flush)
                } else if written.len() > self.target_capacity {
                    self.fail(FlashError::TargetTooSmall)
                } else {
                    (
                        GzipState { phase: GzipPhase::Writing, written, ..self },
                        GzipActionView::Write,
                    )
                }
            } else if chunk@.len() == 0 {
                self.fail(FlashError::Verification)
            } else {
                (GzipState { read_back: self.read_back + chunk@, ..self }).read_back(cancelled)
            },
            AccessEvent::Done => match self.phase {
                GzipPhase::Opening | GzipPhase::Writing => if cancelled {
                    self.fail(FlashError::Cancelled)
                } else {
                    (self.at(GzipPhase::Reading), GzipActionView::Read)
                },
                GzipPhase::Flushing => if !flash::digest_accepted(
                    self.expected_sha256,
                    digest::sha256_text(self.written),
                ) {
                    self.fail(FlashError::Verification)
                } else if self.verify {
                    (self.at(GzipPhase::Rewinding), GzipActionView::Rewind)
                } else {
                    self.finish()
                },
                _ => self.read_back(cancelled),
            },
        }
    }
}

/// Decompresses a previously verified archive into a seekable target and optionally verifies it.
pub struct GzipFlash {
    target_capacity: u64,
    expected_sha256: Option<String>,
    verify: bool,
    phase: GzipPhase,
    written: u64,
    hasher: Hasher,
    read: u64,
    verify_hasher: Hasher,
}

impl View for GzipFlash {
    type V = GzipState;

    closed spec fn view(&self) -> GzipState {
        GzipState {
            target_capacity: self.target_capacity,
            expected_sha256: text::optional_text(self.expected_sha256),
            verify: self.verify,
            phase: self.phase,
            written: digest::hashed_bytes(self.hasher),
            read_back: digest::hashed_bytes(self.verify_hasher),
        }
    }
}

impl GzipFlash {
    /// Whether the byte counts are those of the bytes, and the state one that can be reached.
    pub closed spec fn well_formed(self) -> bool {
        &&& self.written == digest::hashed_bytes(self.hasher).len()
        &&& self.read == digest::hashed_bytes(self.verify_hasher).len()
        &&& self.phase == GzipPhase::Closed || self@.well_formed()
    }

    fn fail(&mut self, error: FlashError) -> (action: GzipAction)
        requires
            old(self).well_formed(),
        ensures
            final(self).well_formed(),
            (final(self)@, action@) == old(self)@.fail(error),
    {
        self.phase = GzipPhase::Closed;
        GzipAction::Fail(error)
    }

    fn finish(&mut self) -> (action: GzipAction)
        requires
            old(self).well_formed(),
        ensures
            final(self).well_formed(),
            (final(self)@, action@) == old(self)@.finish(),
    {
        self.phase = GzipPhase::Closed;
        let digest = self.hasher.digest();
        GzipAction::Finish(
            FlashReport {
                bytes_written: self.written,
                raw_sha256: hex_encode(&digest),
                verified: self.verify,
            },
        )
    }

    fn read_back(&mut self, cancelled: bool) -> (action: GzipAction)
        requires
            old(self).written == digest::hashed_bytes(old(self).hasher).len(),
            old(self).read == digest::hashed_bytes(old(self).verify_hasher).len(),
            old(self).read <= old(self).written <= old(self).target_capacity,
            old(self).verify,
            flash::digest_accepted(
                old(self)@.expected_sha256,
                digest::sha256_text(old(self)@.written),
            ),
        ensures
            final(self).well_formed(),
            (final(self)@, action@) == old(self)@.read_back(cancelled),
    {
        if self.read < self.written {
            if cancelled {
                self.phase = GzipPhase::Closed;
                return GzipAction::Fail(FlashError::Cancelled);
            }
            let left: u64 = self.written - self.read;
            let limit: usize = if left < BUFFER_SIZE as u64 {
                left as usize
            } else {
                BUFFER_SIZE
            };
            self.phase = GzipPhase::ReadingBack;
            return GzipAction::ReadBack(limit);
        }
        let written = self.hasher.digest();
        let read_back = self.verify_hasher.digest();
        self.phase = GzipPhase::Closed;
        if same_digest(&read_back, &written) {
            self.finish()
        } else {
            GzipAction::Fail(FlashError::Verification)
        }
    }

    /// What to do next after an access. `cancelled` is the user's wish at this moment.
    pub fn step(&mut self, event: &AccessEvent, cancelled: bool) -> (action: GzipAction)
        requires
            old(self).well_formed(),
            old(self)@.expects(*event),
        ensures
            final(self).well_formed(),
            (final(self)@, action@) == old(self)@.step(*event, cancelled),
    {
        match event {
            AccessEvent::Failed(message) => self.fail(FlashError::Io(message.clone())),
            AccessEvent::Chunk(chunk) => {
                let count: u64 = chunk.len() as u64;
                if self.phase == GzipPhase::Reading {
                    if count == 0 {
                        self.phase = GzipPhase::Flushing;
                        return GzipAction::Flush;
                    }
                    let next: u64 = match self.written.checked_add(count) {
                        Some(sum) => sum,
                        None => {
                            return self.fail(FlashError::TargetTooSmall);
                        },
                    };
                    if next > self.target_capacity {
                        return self.fail(FlashError::TargetTooSmall);
                    }
                    self.hasher.update(chunk.as_slice());
                    self.written = next;
                    self.phase = GzipPhase::Writing;
                    GzipAction::Write
                } else {
                    if count == 0 {
                        return self.fail(FlashError::Verification);
                    }
                    self.verify_hasher.update(chunk.as_slice());
                    self.read = self.read + count;
                    self.read_back(cancelled)
                }
            },
            AccessEvent::Done => match self.phase {
                GzipPhase::Opening | GzipPhase::Writing => {
                    if cancelled {
                        return self.fail(FlashError::Cancelled);
                    }
                    self.phase = GzipPhase::Reading;
                    GzipAction::Read
                },
                GzipPhase::Flushing => {
                    let digest = self.hasher.digest();
                    let raw_sha256 = hex_encode(&digest);
                    if !digest_is_accepted(&self.expected_sha256, raw_sha256.as_str()) {
                        return self.fail(FlashError::Verification);
                    }
                    if self.verify {
                        self.phase = GzipPhase::Rewinding;
                        GzipAction::Rewind
                    } else {
                        self.finish()
                    }
                },
                _ => self.read_back(cancelled),
            },
        }
    }
}

/// Begin to write a compressed archive to a target. The first thing to do is to open the archive.
pub fn flash_gzip(target_capacity: u64, expected_raw_sha256: Option<String>, verify: bool) -> (
    result: GzipFlash)
    ensures
        result.well_formed(),
        result@ == (GzipState {
            target_capacity,
            expected_sha256: text::optional_text(expected_raw_sha256),
            verify,
            phase: GzipPhase::Opening,
            written: Seq::empty(),
            read_back: Seq::empty(),
        }),
{
    GzipFlash {
        target_capacity,
        expected_sha256: expected_raw_sha256,
        verify,
        phase: GzipPhase::Opening,
        written: 0,
        hasher: Hasher::new(),
        read: 0,
        verify_hasher: Hasher::new(),
    }
}

/// Every state that follows on a well-formed one is well-formed or final, and a report comes only
/// from a state whose bytes fit the target and carry the expected digest; where the report says
/// `verified`, the target gave back as many bytes, with the digest of what was written.
pub proof fn gzip_report_is_sound(state: GzipState, event: AccessEvent, cancelled: bool)
    requires
        state.well_formed(),
        state.expects(event),
    ensures
        ({
            let (after, action) = state.step(event, cancelled);
            &&& after.phase == GzipPhase::Closed || after.well_formed()
            &&& after.written.len() <= state.target_capacity
            &&& action matches GzipActionView::Finish(report) ==> {
                &&& report.bytes_written == after.written.len()
                &&& report.raw_sha256 == digest::sha256_text(after.written)
                &&& flash::digest_accepted(
                    state.expected_sha256,
                    digest::sha256_text(after.written),
                )
                &&& report.verified == state.verify
                &&& report.verified ==> after.read_back.len() == after.written.len()
                    && digest::sha256(after.read_back) == digest::sha256(after.written)
            }
        }),
{
}

/// Every decompressed chunk that still fits is written as soon as it was read, and reading goes on
/// until the archive ends; only then is the target flushed. A chunk that does not fit is refused
/// before it is written.
pub proof fn every_chunk_that_fits_is_written(
    state: GzipState,
    chunk: AccessEvent,
    first: bool,
    second: bool,
)
    requires
        state.phase == GzipPhase::Reading,
        chunk is Chunk,
    ensures
        ({
            let now = state.written.len() + chunk.bytes().len();
            let (writing, action) = state.step(chunk, first);
            let (after, next) = writing.step(AccessEvent::Done, second);
            &&& action is Flush <==> chunk.bytes().len() == 0
            &&& action is Write <==> chunk.bytes().len() > 0 && now <= state.target_capacity
            &&& action == GzipActionView::Fail(FlashError::TargetTooSmall) <==> chunk.bytes().len()
                > 0 && now > state.target_capacity
            &&& action is Write ==> {
                &&& writing.written == state.written + chunk.bytes()
                &&& !second ==> next is Read && after == (GzipState {
                    written: state.written + chunk.bytes(),
                    ..state
                })
                &&& second ==> next == GzipActionView::Fail(FlashError::Cancelled)
            }
        }),
{
}

/// When everything is flushed, the image is judged by its digest, and then read back whole where that
/// was asked for; the report is of all that was written, and says `verified` exactly where it was
/// read back with the same digest.
pub proof fn flushed_target_is_judged(state: GzipState, chunk: AccessEvent)
    requires
        state.well_formed(),
    ensures
        state.phase == GzipPhase::Flushing ==> {
            let action = state.step(AccessEvent::Done, false).1;
            let accepted = match state.expected_sha256 {
                Some(wanted) => text::lower_text(wanted) == text::lower_text(
                    digest::sha256_text(state.written),
                ),
                None => true,
            };
            &&& !accepted ==> action == GzipActionView::Fail(FlashError::Verification)
            &&& accepted && state.verify ==> action is Rewind
            &&& accepted && !state.verify ==> action == GzipActionView::Finish(
                FlashReportView {
                    bytes_written: state.written.len() as u64,
                    raw_sha256: digest::sha256_text(state.written),
                    verified: false,
                },
            )
        },
        state.phase == GzipPhase::ReadingBack && chunk is Chunk && state.expects(chunk) ==> {
            let read = state.read_back + chunk.bytes();
            let left = state.written.len() - read.len();
            let (after, action) = state.step(chunk, false);
            &&& chunk.bytes().len() == 0 ==> action == GzipActionView::Fail(
                FlashError::Verification,
            )
            &&& chunk.bytes().len() > 0 && left > 0 ==> {
                &&& action matches GzipActionView::ReadBack(most)
                &&& 0 < most <= left && most <= BUFFER_SIZE && (most == left || most
                    == BUFFER_SIZE)
                &&& after.read_back == read && after.written == state.written
            }
            &&& chunk.bytes().len() > 0 && left == 0 ==> action == (if digest::sha256(read)
                == digest::sha256(state.written) {
                GzipActionView::Finish(
                    FlashReportView {
                        bytes_written: state.written.len() as u64,
                        raw_sha256: digest::sha256_text(state.written),
                        verified: true,
                    },
                )
            } else {
                GzipActionView::Fail(FlashError::Verification)
            })
        },
        state.phase == GzipPhase::Rewinding && state.written.len() > 0 ==> (state.step(
            AccessEvent::Done,
            false,
        ).1 matches GzipActionView::ReadBack(most) && 0 < most <= state.written.len() && most
            <= BUFFER_SIZE),
{
}

/// The operation fails only for a reason, and the error is that reason.
pub proof fn failed_gzip_flash_has_its_reason(
    state: GzipState,
    event: AccessEvent,
    cancelled: bool,
)
    requires
        state.well_formed(),
        state.expects(event),
    ensures
        event matches AccessEvent::Failed(cause) ==> state.step(event, cancelled).1
            == GzipActionView::Fail(FlashError::Io(cause)),
        state.step(event, cancelled).1 matches GzipActionView::Fail(error) ==> match error {
            FlashError::Io(cause) => event == AccessEvent::Failed(cause),
            FlashError::Cancelled => cancelled,
            FlashError::TargetTooSmall => state.phase == GzipPhase::Reading && state.written.len()
                + event.bytes().len() > state.target_capacity,
            FlashError::Verification => {
                ||| state.phase == GzipPhase::Flushing && (state.expected_sha256 matches Some(
                    wanted,
                ) && text::lower_text(wanted) != text::lower_text(
                    digest::sha256_text(state.written),
                ))
                ||| state.phase == GzipPhase::ReadingBack && event.bytes().len() == 0
                ||| digest::sha256(state.read_back + event.bytes()) != digest::sha256(state.written)
            },
            _ => false,
        },
{
    if event is Done {
        assert(state.read_back + event.bytes() =~= state.read_back);
    }
}

/// What must not be written is not: a cancelled flash stops before the next chunk, an image that
/// exceeds the target is refused at the chunk that does, and a target that ends before the image is
/// read back is refused.
pub proof fn spoiled_gzip_flash_is_refused(state: GzipState, event: AccessEvent)
    requires
        state.well_formed(),
        state.expects(event),
    ensures
        event is Done && (state.phase == GzipPhase::Opening || state.phase == GzipPhase::Writing)
            ==> state.step(event, true).1 == GzipActionView::Fail(FlashError::Cancelled),
        state.phase == GzipPhase::Reading && event is Chunk && event.bytes().len() > 0
            && state.written.len() + event.bytes().len() > state.target_capacity ==> state.step(
            event,
            false,
        ).1 == GzipActionView::Fail(FlashError::TargetTooSmall),
        state.phase == GzipPhase::ReadingBack && event is Chunk && event.bytes().len() == 0
            ==> state.step(event, false).1 == GzipActionView::Fail(FlashError::Verification),
{
}

} // verus!
