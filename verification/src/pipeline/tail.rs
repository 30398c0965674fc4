//! The JSON-lines progress that a worker writes, taken apart into records.

use vstd::prelude::*;
use vstd::string::*;

use crate::pipeline;
use crate::pipeline::{validate_progress, WorkerRunnerError, WorkerRunnerErrorView};
use crate::worker::WorkerProgress;

verus! {

broadcast use vstd::seq_lib::group_seq_properties;

/// The most bytes of progress that are read at once.
pub const MAX_PROGRESS_READ: usize = 1_048_576;

/// The most bytes that one record may have.
pub const MAX_PROGRESS_RECORD: usize = 65_536;

/// The byte that ends a record.
pub const LINE_FEED: u8 = 10;

/// Whether a byte is white space.
pub open spec fn is_blank_byte(byte: u8) -> bool {
    byte == 9 || byte == 10 || byte == 12 || byte == 13 || byte == 32
}

/// Whether a line holds nothing but white space.
pub open spec fn is_blank(line: Seq<u8>) -> bool {
    forall|i: int| 0 <= i < line.len() ==> is_blank_byte(#[trigger] line[i])
}

/// The lines of some bytes: those that are ended, and what stands behind the last line feed.
pub open spec fn byte_lines(bytes: Seq<u8>) -> (Seq<Seq<u8>>, Seq<u8>)
    decreases bytes.len(),
{
    if bytes.len() == 0 {
        (Seq::empty(), Seq::empty())
    } else {
        let (ended, rest) = byte_lines(bytes.drop_last());
        if bytes.last() == LINE_FEED {
            (ended.push(rest), Seq::empty())
        } else {
            (ended, rest.push(bytes.last()))
        }
    }
}

/// The records among some lines, up to the first that is too large: those that are not blank. The
/// second part tells whether one is too large.
pub open spec fn line_records(lines: Seq<Seq<u8>>) -> (Seq<Seq<u8>>, bool)
    decreases lines.len(),
{
    if lines.len() == 0 {
        (Seq::empty(), false)
    } else {
        let (before, oversized) = line_records(lines.drop_last());
        let last = lines.last();
        if oversized || is_blank(last) {
            (before, oversized)
        } else if last.len() > MAX_PROGRESS_RECORD {
            (before, true)
        } else {
            (before.push(last), false)
        }
    }
}

/// A record that is too large.
pub open spec fn oversized_fault() -> WorkerRunnerErrorView {
    WorkerRunnerErrorView::InvalidProgress("worker progress record is too large"@)
}

/// What came of some bytes of progress.
pub struct FedView {
    /// The records that are complete, in their order.
    pub records: Seq<Seq<u8>>,
    /// What is wrong behind them.
    pub fault: Option<WorkerRunnerErrorView>,
    /// What belongs to a record that is not complete yet.
    pub pending: Seq<u8>,
}

/// What comes of bytes that were read behind those that are pending.
pub open spec fn fed(pending: Seq<u8>, chunk: Seq<u8>) -> FedView {
    if chunk.len() > MAX_PROGRESS_READ {
        FedView {
            records: Seq::empty(),
            fault: Some(
                WorkerRunnerErrorView::InvalidProgress("worker progress grew too quickly"@),
            ),
            pending,
        }
    } else {
        let (ended, rest) = byte_lines(pending + chunk);
        let (records, oversized) = line_records(ended);
        FedView {
            records,
            fault: if oversized || rest.len() > MAX_PROGRESS_RECORD {
                Some(oversized_fault())
            } else {
                None
            },
            pending: rest,
        }
    }
}

/// What came of some bytes of progress.
#[derive(Debug)]
pub struct Fed {
    /// The records that are complete, in their order. Each is to be parsed and accepted in turn.
    pub records: Vec<Vec<u8>>,
    /// What is wrong behind them.
    pub fault: Option<WorkerRunnerError>,
}

/// The views of some records.
pub open spec fn record_views(records: Seq<Vec<u8>>) -> Seq<Seq<u8>> {
    records.map_values(|record: Vec<u8>| record@)
}

fn all_blank(line: &Vec<u8>) -> (result: bool)
    ensures
        result == is_blank(line@),
{
    let mut index: usize = 0;
    while index < line.len()
        invariant
            index <= line@.len(),
            forall|i: int| 0 <= i < index ==> is_blank_byte(#[trigger] line@[i]),
        decreases line@.len() - index,
    {
        let byte: u8 = line[index];
        if !(byte == 9 || byte == 10 || byte == 12 || byte == 13 || byte == 32) {
            assert(!is_blank_byte(line@[index as int]));
            return false;
        }
        index += 1;
    }
    true
}

/// The progress that a worker writes, as far as it was read.
#[derive(Debug)]
pub struct ProgressTail {
    pending: Vec<u8>,
    saw_event: bool,
}

impl ProgressTail {
    /// What belongs to a record that is not complete yet.
    pub closed spec fn pending(self) -> Seq<u8> {
        self.pending@
    }

    /// Whether an event was accepted.
    pub closed spec fn has_seen_event(self) -> bool {
        self.saw_event
    }

    /// Progress of which nothing was read.
    pub fn new() -> (tail: ProgressTail)
        ensures
            tail.pending() == Seq::<u8>::empty(),
            !tail.has_seen_event(),
    {
        ProgressTail { pending: Vec::new(), saw_event: false }
    }

    /// Whether an event was accepted.
    pub fn saw_event(&self) -> (result: bool)
        ensures
            result == self.has_seen_event(),
    {
        self.saw_event
    }

    /// Take bytes that were read next. Of progress that grows too quickly one byte more than
    /// [`MAX_PROGRESS_READ`] is enough.
    pub fn drain(&mut self, chunk: &Vec<u8>) -> (result: Fed)
        ensures
            ({
                let wanted = fed(old(self).pending(), chunk@);
                &&& record_views(result.records@) == wanted.records
                &&& match result.fault {
                    Some(error) => wanted.fault == Some(error@),
                    None => wanted.fault is None,
                }
                &&& final(self).pending() == wanted.pending
                &&& final(self).has_seen_event() == old(self).has_seen_event()
            }),
    {
        let ghost before = self.pending@;
        let mut records: Vec<Vec<u8>> = Vec::new();
        assert(record_views(records@) =~= Seq::empty());
        if chunk.len() > MAX_PROGRESS_READ {
            return Fed {
                records,
                fault: Some(
                    WorkerRunnerError::InvalidProgress(
                        "worker progress grew too quickly".to_owned(),
                    ),
                ),
            };
        }
        let mut oversized = false;
        let mut current: Vec<u8> = Vec::new();
        core::mem::swap(&mut current, &mut self.pending);
        let ghost all = before + chunk@;
        let mut held: Vec<u8> = Vec::new();
        let count: usize = current.len();
        let mut index: usize = 0;
        assert(all.take(0) =~= Seq::empty());
        while index < current.len()
            invariant
                index <= current@.len(),
                current@ == before,
                all == before + chunk@,
                byte_lines(all.take(index as int)).1 == held@,
                line_records(byte_lines(all.take(index as int)).0) == (
                    record_views(records@),
                    oversized,
                ),
            decreases current@.len() - index,
        {
            let byte: u8 = current[index];
            let ghost upto = all.take(index as int + 1);
            assert(upto.drop_last() =~= all.take(index as int));
            assert(upto.last() == byte);
            let ghost lines = byte_lines(all.take(index as int)).0;
            if byte == LINE_FEED {
                assert(lines.push(held@).drop_last() =~= lines);
                held = ProgressTail::end_line(held, &mut records, &mut oversized);
            } else {
                held.push(byte);
            }
            index += 1;
        }
        let mut index: usize = 0;
        while index < chunk.len()
            invariant
                index <= chunk@.len(),
                all == before + chunk@,
                byte_lines(all.take(before.len() + index)).1 == held@,
                line_records(byte_lines(all.take(before.len() + index)).0) == (
                    record_views(records@),
                    oversized,
                ),
            decreases chunk@.len() - index,
        {
            let byte: u8 = chunk[index];
            let ghost upto = all.take(before.len() + index + 1);
            assert(upto.drop_last() =~= all.take(before.len() + index));
            assert(upto.last() == byte);
            let ghost lines = byte_lines(all.take(before.len() + index)).0;
            if byte == LINE_FEED {
                assert(lines.push(held@).drop_last() =~= lines);
                held = ProgressTail::end_line(held, &mut records, &mut oversized);
            } else {
                held.push(byte);
            }
            index += 1;
        }
        assert(all.take(all.len() as int) =~= all);
        let fault = if oversized || held.len() > MAX_PROGRESS_RECORD {
            Some(
                WorkerRunnerError::InvalidProgress("worker progress record is too large".to_owned()),
            )
        } else {
            None
        };
        self.pending = held;
        Fed { records, fault }
    }

    /// Take a line that is ended.
    fn end_line(line: Vec<u8>, records: &mut Vec<Vec<u8>>, oversized: &mut bool) -> (empty: Vec<u8>)
        ensures
            empty@ == Seq::<u8>::empty(),
            forall|lines: Seq<Seq<u8>>|
                #![trigger line_records(lines.push(line@))]
                lines.push(line@).drop_last() == lines && line_records(lines) == (
                    record_views(old(records)@),
                    *old(oversized),
                ) ==> line_records(lines.push(line@)) == (
                    record_views(final(records)@),
                    *final(oversized),
                ),
    {
        let ghost before = record_views(records@);
        if !*oversized && !all_blank(&line) {
            if line.len() > MAX_PROGRESS_RECORD {
                *oversized = true;
            } else {
                let ghost view = line@;
                records.push(line);
                assert(record_views(records@) =~= before.push(view));
            }
        }
        Vec::new()
    }

    /// Accept a parsed record as an event of the worker.
    pub fn accept(&mut self, progress: &WorkerProgress) -> (result: Result<(), WorkerRunnerError>)
        ensures
            pipeline::is_verdict(result, pipeline::progress_fault(*progress)),
            final(self).pending() == old(self).pending(),
            final(self).has_seen_event() == (old(self).has_seen_event() || result is Ok),
    {
        match validate_progress(progress) {
            Err(error) => Err(error),
            Ok(()) => {
                self.saw_event = true;
                Ok(())
            },
        }
    }

    /// Check that nothing is left of a record when the worker has exited and everything was read.
    pub fn finish(&self) -> (result: Result<(), WorkerRunnerError>)
        ensures
            pipeline::is_verdict(
                result,
                if is_blank(self.pending()) {
                    None
                } else {
                    Some(
                        WorkerRunnerErrorView::InvalidProgress(
                            "worker exited with an incomplete JSON-lines record"@,
                        ),
                    )
                },
            ),
    {
        if all_blank(&self.pending) {
            Ok(())
        } else {
            Err(
                WorkerRunnerError::InvalidProgress(
                    "worker exited with an incomplete JSON-lines record".to_owned(),
                ),
            )
        }
    }
}

// ---------------------------------------------------------------------------------------------
// Records that a worker writes
// ---------------------------------------------------------------------------------------------

proof fn line_feed_ends_a_line(line: Seq<u8>)
    requires
        forall|i: int| 0 <= i < line.len() ==> #[trigger] line[i] != LINE_FEED,
    ensures
        byte_lines(line) == (Seq::<Seq<u8>>::empty(), line),
        byte_lines(line.push(LINE_FEED)) == (seq![line], Seq::<u8>::empty()),
    decreases line.len(),
{
    if line.len() > 0 {
        line_feed_ends_a_line(line.drop_last());
        assert(line[line.len() - 1] != LINE_FEED);
        assert(line.drop_last().push(line.last()) =~= line);
    } else {
        assert(byte_lines(line).1 =~= line);
    }
    assert(line.push(LINE_FEED).drop_last() =~= line);
    assert(Seq::<Seq<u8>>::empty().push(line) =~= seq![line]);
}

/// What a worker writes of an event reads back as that event's record: one that holds no line feed,
/// is not blank and is not too large.
pub proof fn written_record_reads_back(record: Seq<u8>)
    requires
        forall|i: int| 0 <= i < record.len() ==> #[trigger] record[i] != LINE_FEED,
        !is_blank(record),
        record.len() <= MAX_PROGRESS_RECORD,
    ensures
        fed(Seq::empty(), record.push(LINE_FEED)) == (FedView {
            records: seq![record],
            fault: None,
            pending: Seq::empty(),
        }),
{
    line_feed_ends_a_line(record);
    let chunk = record.push(LINE_FEED);
    assert(Seq::<u8>::empty() + chunk =~= chunk);
    let lines = seq![record];
    assert(lines.drop_last() =~= Seq::<Seq<u8>>::empty());
    assert(line_records(Seq::<Seq<u8>>::empty()) == (Seq::<Seq<u8>>::empty(), false));
    assert(Seq::<Seq<u8>>::empty().push(record) =~= seq![record]);
}

/// Lines with a line feed behind each, one after the other.
pub open spec fn with_line_feeds(lines: Seq<Seq<u8>>) -> Seq<u8>
    decreases lines.len(),
{
    if lines.len() == 0 {
        Seq::empty()
    } else {
        with_line_feeds(lines.drop_last()) + lines.last().push(LINE_FEED)
    }
}

/// Whether no byte of a line is a line feed.
pub open spec fn holds_no_line_feed(line: Seq<u8>) -> bool {
    forall|i: int| 0 <= i < line.len() ==> #[trigger] line[i] != LINE_FEED
}

/// Taking bytes apart into lines loses nothing and changes nothing: with their line feeds the lines
/// are the bytes again, and no line holds a line feed.
pub proof fn lines_are_all_of_the_bytes(bytes: Seq<u8>)
    ensures
        with_line_feeds(byte_lines(bytes).0) + byte_lines(bytes).1 == bytes,
        holds_no_line_feed(byte_lines(bytes).1),
        forall|i: int|
            0 <= i < byte_lines(bytes).0.len() ==> holds_no_line_feed(
                #[trigger] byte_lines(bytes).0[i],
            ),
    decreases bytes.len(),
{
    if bytes.len() == 0 {
        assert(with_line_feeds(byte_lines(bytes).0) + byte_lines(bytes).1 =~= bytes);
    } else {
        let front = bytes.drop_last();
        lines_are_all_of_the_bytes(front);
        let (before, rest) = byte_lines(front);
        let (after, left) = byte_lines(bytes);
        assert(bytes =~= front.push(bytes.last()));
        if bytes.last() == LINE_FEED {
            assert(after.drop_last() =~= before);
            assert(with_line_feeds(after) + left =~= (with_line_feeds(before) + rest).push(
                LINE_FEED,
            ));
            assert forall|i: int| 0 <= i < after.len() implies holds_no_line_feed(
                #[trigger] after[i],
            ) by {
                if i < before.len() {
                    assert(after[i] == before[i]);
                }
            }
        } else {
            assert(with_line_feeds(after) + left =~= (with_line_feeds(before) + rest).push(
                bytes.last(),
            ));
        }
    }
}

/// The records are the lines with content, in their order, as long as none is too large; and one is
/// too large exactly where it has content and more bytes than a record may have.
pub proof fn records_are_the_lines_with_content(lines: Seq<Seq<u8>>)
    ensures
        line_records(lines).1 <==> exists|i: int|
            0 <= i < lines.len() && !is_blank(#[trigger] lines[i]) && lines[i].len() > 65_536,
        !line_records(lines).1 ==> line_records(lines).0 == lines.filter(
            |line: Seq<u8>| !is_blank(line),
        ),
    decreases lines.len(),
{
    let content = |line: Seq<u8>| !is_blank(line);
    reveal(Seq::filter);
    if lines.len() > 0 {
        let front = lines.drop_last();
        records_are_the_lines_with_content(front);
        assert(lines =~= front.push(lines.last()));
        if line_records(lines).1 {
            if line_records(front).1 {
                let at = choose|i: int|
                    0 <= i < front.len() && !is_blank(#[trigger] front[i]) && front[i].len()
                        > 65_536;
                assert(lines[at] == front[at]);
            } else {
                assert(lines[lines.len() - 1] == lines.last());
            }
        } else {
            assert forall|i: int| 0 <= i < lines.len() implies is_blank(#[trigger] lines[i])
                || lines[i].len() <= 65_536 by {
                if i < front.len() {
                    assert(lines[i] == front[i]);
                }
            }
            assert(lines.filter(content) == if content(lines.last()) {
                front.filter(content).push(lines.last())
            } else {
                front.filter(content)
            });
        }
    }
}

proof fn lines_behind_a_rest(bytes: Seq<u8>, more: Seq<u8>)
    ensures
        byte_lines(bytes + more).0 == byte_lines(bytes).0 + byte_lines(
            byte_lines(bytes).1 + more,
        ).0,
        byte_lines(bytes + more).1 == byte_lines(byte_lines(bytes).1 + more).1,
    decreases more.len(),
{
    let (before, rest) = byte_lines(bytes);
    if more.len() == 0 {
        assert(bytes + more =~= bytes);
        assert(rest + more =~= rest);
        lines_are_all_of_the_bytes(bytes);
        line_feed_ends_a_line(rest);
        assert(before + byte_lines(rest).0 =~= before);
    } else {
        let front = more.drop_last();
        lines_behind_a_rest(bytes, front);
        assert((bytes + more).drop_last() =~= bytes + front);
        assert((rest + more).drop_last() =~= rest + front);
        assert((bytes + more).last() == more.last());
        assert((rest + more).last() == more.last());
        let (first, middle) = byte_lines(rest + front);
        if more.last() == LINE_FEED {
            assert((before + first).push(middle) =~= before + first.push(middle));
        }
    }
}

proof fn records_of_more_lines(lines: Seq<Seq<u8>>, more: Seq<Seq<u8>>)
    requires
        !line_records(lines).1,
    ensures
        line_records(lines + more).0 == line_records(lines).0 + line_records(more).0,
        line_records(lines + more).1 == line_records(more).1,
    decreases more.len(),
{
    if more.len() == 0 {
        assert(lines + more =~= lines);
        assert(line_records(lines).0 + line_records(more).0 =~= line_records(lines).0);
    } else {
        records_of_more_lines(lines, more.drop_last());
        assert((lines + more).drop_last() =~= lines + more.drop_last());
        assert((lines + more).last() == more.last());
        let before = line_records(lines).0;
        let rest = line_records(more.drop_last()).0;
        assert((before + rest).push(more.last()) =~= before + rest.push(more.last()));
    }
}

/// How progress is divided among the reads does not matter: what two reads give one after the other
/// is what a single read of the same bytes gives.
pub proof fn division_into_reads_does_not_matter(
    pending: Seq<u8>,
    first: Seq<u8>,
    second: Seq<u8>,
)
    requires
        first.len() + second.len() <= 1_048_576,
        fed(pending, first).fault is None,
    ensures
        ({
            let one = fed(pending, first);
            let two = fed(one.pending, second);
            let both = fed(pending, first + second);
            &&& both.records == one.records + two.records
            &&& both.pending == two.pending
            &&& both.fault == two.fault
        }),
{
    assert(pending + (first + second) =~= (pending + first) + second);
    lines_behind_a_rest(pending + first, second);
    let (ended, rest) = byte_lines(pending + first);
    records_of_more_lines(ended, byte_lines(rest + second).0);
}

/// Progress is refused exactly where more of it is read at once than allowed, or where a record has
/// more bytes than one may have, be it complete or not.
pub proof fn progress_is_refused_only_for_its_size(pending: Seq<u8>, chunk: Seq<u8>)
    ensures
        fed(pending, chunk).fault is Some <==> chunk.len() > 1_048_576 || byte_lines(
            pending + chunk,
        ).1.len() > 65_536 || exists|i: int|
            0 <= i < byte_lines(pending + chunk).0.len() && !is_blank(
                #[trigger] byte_lines(pending + chunk).0[i],
            ) && byte_lines(pending + chunk).0[i].len() > 65_536,
        fed(pending, chunk).fault matches Some(fault) ==> fault is InvalidProgress,
{
    records_are_the_lines_with_content(byte_lines(pending + chunk).0);
}

} // verus!
