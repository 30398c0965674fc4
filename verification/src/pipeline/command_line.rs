//! The arguments by which the executable is re-entered as a worker, and their native command line
//! on Windows.

use vstd::prelude::*;
use vstd::string::*;

use crate::digest;
use crate::pipeline::WORKER_JOB_ARGUMENT;
use crate::text;
use crate::worker;
use crate::worker::{
    Platform, WINDOWS_RAW_DEVICE_OPT_IN_ARGUMENT, WINDOWS_RAW_DEVICE_OPT_IN_VALUE,
    WORKER_JOB_SHA256_ARGUMENT,
};

verus! {

broadcast use vstd::seq_lib::group_seq_properties;

// ---------------------------------------------------------------------------------------------
// Arguments
// ---------------------------------------------------------------------------------------------

/// The arguments of a worker, behind the name of its executable.
pub open spec fn argument_texts(platform: Platform, job_path: Seq<char>, sha256: Seq<char>) -> Seq<
    Seq<char>,
> {
    let common = seq![WORKER_JOB_ARGUMENT@, job_path, WORKER_JOB_SHA256_ARGUMENT@, sha256];
    match platform {
        Platform::Windows => common + seq![
            WINDOWS_RAW_DEVICE_OPT_IN_ARGUMENT@,
            WINDOWS_RAW_DEVICE_OPT_IN_VALUE@,
        ],
        _ => common,
    }
}

/// The arguments of a worker for the job file at `job_path` with this digest, behind the name of
/// its executable.
pub fn worker_arguments(platform: Platform, job_path: &str, sha256: &str) -> (arguments: Vec<
    String,
>)
    ensures
        text::texts(arguments@) == argument_texts(platform, job_path@, sha256@),
{
    let mut arguments: Vec<String> = Vec::new();
    arguments.push(WORKER_JOB_ARGUMENT.to_owned());
    arguments.push(job_path.to_owned());
    arguments.push(WORKER_JOB_SHA256_ARGUMENT.to_owned());
    arguments.push(sha256.to_owned());
    if platform == Platform::Windows {
        arguments.push(WINDOWS_RAW_DEVICE_OPT_IN_ARGUMENT.to_owned());
        arguments.push(WINDOWS_RAW_DEVICE_OPT_IN_VALUE.to_owned());
    }
    assert(text::texts(arguments@) =~= argument_texts(platform, job_path@, sha256@));
    arguments
}

/// A worker takes the arguments that it is launched with, and finds the path of its job in them.
pub proof fn worker_accepts_its_arguments(
    platform: Platform,
    arguments: Seq<String>,
    executable: Seq<char>,
    job_path: Seq<char>,
    sha256: Seq<char>,
)
    requires
        text::texts(arguments) == seq![executable] + argument_texts(platform, job_path, sha256),
        digest::is_sha256_text(sha256),
    ensures
        worker::arguments_fault(platform, arguments) is None,
        arguments[2]@ == job_path,
{
    let texts = seq![executable] + argument_texts(platform, job_path, sha256);
    assert(arguments.len() == texts.len());
    assert forall|i: int| 0 <= i < arguments.len() implies #[trigger] arguments[i]@ == texts[i] by {
        assert(text::texts(arguments)[i] == texts[i]);
    }
    assert(arguments[1]@ == WORKER_JOB_ARGUMENT@);
    assert(arguments[3]@ == WORKER_JOB_SHA256_ARGUMENT@);
    assert(arguments[4]@ == sha256);
}

// ---------------------------------------------------------------------------------------------
// Quoting
// ---------------------------------------------------------------------------------------------

/// The code unit of a backslash.
pub const BACKSLASH: u16 = 92;

/// The code unit of a quotation mark.
pub const QUOTE: u16 = 34;

/// The code unit of a space.
pub const SPACE: u16 = 32;

/// So many backslashes.
pub open spec fn backslashes(count: nat) -> Seq<u16> {
    Seq::new(count, |i: int| BACKSLASH)
}

/// What is written of an argument so far, and how many of its backslashes are still to be written.
pub open spec fn written(value: Seq<u16>) -> (Seq<u16>, nat)
    decreases value.len(),
{
    if value.len() == 0 {
        (Seq::empty(), 0)
    } else {
        let (before, pending) = written(value.drop_last());
        let last = value.last();
        if last == BACKSLASH {
            (before, pending + 1)
        } else if last == QUOTE {
            (before + backslashes(2 * pending + 1) + seq![last], 0)
        } else {
            (before + backslashes(pending) + seq![last], 0)
        }
    }
}

/// One argument between quotation marks. Backslashes are doubled where a quotation mark follows
/// them, and a quotation mark of the argument gets a backslash of its own.
pub open spec fn quoted(value: Seq<u16>) -> Seq<u16> {
    let (before, pending) = written(value);
    seq![QUOTE] + before + backslashes(2 * pending) + seq![QUOTE]
}

/// Arguments, each quoted, with a space between each two.
pub open spec fn command_line(arguments: Seq<Seq<u16>>) -> Seq<u16>
    decreases arguments.len(),
{
    if arguments.len() == 0 {
        Seq::empty()
    } else if arguments.len() == 1 {
        quoted(arguments[0])
    } else {
        command_line(arguments.drop_last()).push(SPACE) + quoted(arguments.last())
    }
}

fn push_backslashes(text: &mut Vec<u16>, count: usize)
    ensures
        final(text)@ == old(text)@ + backslashes(count as nat),
{
    let ghost before = text@;
    let mut done: usize = 0;
    assert(before + backslashes(0) =~= before);
    while done < count
        invariant
            done <= count,
            text@ == before + backslashes(done as nat),
        decreases count - done,
    {
        text.push(BACKSLASH);
        done += 1;
        assert(text@ =~= before + backslashes(done as nat));
    }
}

fn push_twice(text: &mut Vec<u16>, count: usize)
    ensures
        final(text)@ == old(text)@ + backslashes(2 * (count as nat)),
{
    let ghost before = text@;
    push_backslashes(text, count);
    push_backslashes(text, count);
    assert(text@ =~= before + backslashes(2 * (count as nat)));
}

/// Inverse of Windows' `CommandLineToArgvW` rules for one arbitrary native argument.
pub fn quote_native_argument(value: &Vec<u16>) -> (text: Vec<u16>)
    ensures
        text@ == quoted(value@),
{
    let mut text: Vec<u16> = Vec::new();
    text.push(QUOTE);
    let mut pending: usize = 0;
    let mut index: usize = 0;
    assert(value@.take(0) =~= Seq::empty());
    assert(text@ =~= seq![QUOTE] + Seq::<u16>::empty());
    while index < value.len()
        invariant
            index <= value@.len(),
            pending <= index,
            written(value@.take(index as int)).1 == pending,
            text@ == seq![QUOTE] + written(value@.take(index as int)).0,
        decreases value@.len() - index,
    {
        let unit: u16 = value[index];
        let ghost upto = value@.take(index as int + 1);
        let ghost before = text@;
        assert(upto.drop_last() =~= value@.take(index as int));
        assert(upto.last() == unit);
        if unit == BACKSLASH {
            pending += 1;
        } else {
            if unit == QUOTE {
                push_twice(&mut text, pending);
                text.push(BACKSLASH);
                assert(text@ =~= before + backslashes(2 * (pending as nat) + 1));
            } else {
                push_backslashes(&mut text, pending);
            }
            text.push(unit);
            pending = 0;
            assert(text@ =~= seq![QUOTE] + written(upto).0);
        }
        index += 1;
    }
    assert(value@.take(value@.len() as int) =~= value@);
    push_twice(&mut text, pending);
    text.push(QUOTE);
    assert(text@ =~= quoted(value@));
    text
}

/// The views of some arguments.
pub open spec fn argument_views(arguments: Seq<Vec<u16>>) -> Seq<Seq<u16>> {
    arguments.map_values(|argument: Vec<u16>| argument@)
}

/// The command line of some native arguments.
pub fn native_command_line(arguments: &Vec<Vec<u16>>) -> (line: Vec<u16>)
    ensures
        line@ == command_line(argument_views(arguments@)),
{
    let mut line: Vec<u16> = Vec::new();
    let mut index: usize = 0;
    let ghost all = argument_views(arguments@);
    assert(all.take(0) =~= Seq::empty());
    while index < arguments.len()
        invariant
            index <= arguments@.len(),
            all == argument_views(arguments@),
            line@ == command_line(all.take(index as int)),
        decreases arguments@.len() - index,
    {
        let ghost upto = all.take(index as int + 1);
        assert(upto.drop_last() =~= all.take(index as int));
        assert(upto.last() == arguments@[index as int]@);
        if index > 0 {
            line.push(SPACE);
        } else {
            assert(line@ =~= Seq::<u16>::empty());
        }
        let mut argument = quote_native_argument(&arguments[index]);
        line.append(&mut argument);
        assert(line@ =~= command_line(upto));
        index += 1;
    }
    assert(all.take(all.len() as int) =~= all);
    line
}

// ---------------------------------------------------------------------------------------------
// Reading a command line back
// ---------------------------------------------------------------------------------------------

/// How far a command line was read, by the rules of `CommandLineToArgvW` for what stands behind
/// the name of the executable.
#[verifier::ext_equal]
pub struct Reading {
    /// The arguments that are complete.
    pub arguments: Seq<Seq<u16>>,
    /// The argument that is being read, if one is.
    pub current: Option<Seq<u16>>,
    /// How many backslashes stand directly before.
    pub slashes: nat,
    /// Whether the place is between quotation marks.
    pub inside: bool,
}

impl Reading {
    /// What the current argument has so far.
    pub open spec fn so_far(self) -> Seq<u16> {
        match self.current {
            Some(argument) => argument,
            None => Seq::empty(),
        }
    }

    /// The reading with one more unit. Backslashes stand for themselves unless a quotation mark
    /// follows: before one, each pair stands for one backslash, and an odd one makes the quotation
    /// mark part of the argument. A space outside quotation marks ends an argument.
    pub open spec fn unit(self, unit: u16) -> Reading {
        if unit == BACKSLASH {
            Reading { current: Some(self.so_far()), slashes: self.slashes + 1, ..self }
        } else if unit == QUOTE {
            let argument = self.so_far() + backslashes(self.slashes / 2);
            if self.slashes % 2 == 1 {
                Reading { current: Some(argument.push(QUOTE)), slashes: 0, ..self }
            } else {
                Reading { current: Some(argument), slashes: 0, inside: !self.inside, ..self }
            }
        } else if unit == SPACE && !self.inside {
            match self.current {
                Some(argument) => Reading {
                    arguments: self.arguments.push(argument + backslashes(self.slashes)),
                    current: None,
                    slashes: 0,
                    inside: false,
                },
                None => self,
            }
        } else {
            Reading {
                current: Some((self.so_far() + backslashes(self.slashes)).push(unit)),
                slashes: 0,
                ..self
            }
        }
    }

    /// The reading with more units.
    pub open spec fn units(self, line: Seq<u16>) -> Reading
        decreases line.len(),
    {
        if line.len() == 0 {
            self
        } else {
            self.units(line.drop_last()).unit(line.last())
        }
    }

    /// The arguments, where the line ends here.
    pub open spec fn all(self) -> Seq<Seq<u16>> {
        match self.current {
            Some(argument) => self.arguments.push(argument + backslashes(self.slashes)),
            None => self.arguments,
        }
    }
}

/// Nothing was read yet.
pub open spec fn unread() -> Reading {
    Reading { arguments: Seq::empty(), current: None, slashes: 0, inside: false }
}

/// The arguments of a command line.
pub open spec fn read_arguments(line: Seq<u16>) -> Seq<Seq<u16>> {
    unread().units(line).all()
}

proof fn units_in_two_parts(reading: Reading, first: Seq<u16>, second: Seq<u16>)
    ensures
        reading.units(first + second) == reading.units(first).units(second),
    decreases second.len(),
{
    if second.len() == 0 {
        assert(first + second =~= first);
    } else {
        units_in_two_parts(reading, first, second.drop_last());
        assert((first + second).drop_last() =~= first + second.drop_last());
        assert((first + second).last() == second.last());
    }
}

proof fn one_unit(reading: Reading, unit: u16)
    ensures
        reading.units(seq![unit]) == reading.unit(unit),
{
    assert(seq![unit].drop_last() =~= Seq::<u16>::empty());
    assert(reading.units(Seq::<u16>::empty()) == reading);
}

proof fn backslashes_are_counted(reading: Reading, count: nat)
    requires
        reading.current is Some,
    ensures
        reading.units(backslashes(count)) == (Reading {
            slashes: reading.slashes + count,
            ..reading
        }),
    decreases count,
{
    if count > 0 {
        let fewer = (count - 1) as nat;
        backslashes_are_counted(reading, fewer);
        assert(backslashes(count).drop_last() =~= backslashes(fewer));
        assert(backslashes(count).last() == BACKSLASH);
    } else {
        assert(backslashes(0) =~= Seq::<u16>::empty());
    }
}

proof fn written_reads_back(reading: Reading, value: Seq<u16>)
    requires
        reading.current == Some(Seq::<u16>::empty()),
        reading.slashes == 0,
        reading.inside,
    ensures
        ({
            let after = reading.units(written(value).0);
            &&& after == (Reading { current: after.current, ..reading })
            &&& after.current matches Some(argument) && argument + backslashes(written(value).1)
                == value
        }),
    decreases value.len(),
{
    let (units, pending) = written(value);
    if value.len() == 0 {
        assert(Seq::<u16>::empty() + backslashes(0) =~= value);
    } else {
        written_reads_back(reading, value.drop_last());
        let (before, earlier) = written(value.drop_last());
        let reached = reading.units(before);
        let argument = reached.current->0;
        let last = value.last();
        if last == BACKSLASH {
            assert(argument + backslashes(earlier + 1) =~= (argument + backslashes(earlier)).push(
                last,
            ));
            assert(value =~= value.drop_last().push(last));
        } else {
            let count = if last == QUOTE {
                2 * earlier + 1
            } else {
                earlier
            };
            backslashes_are_counted(reached, count);
            units_in_two_parts(reading, before, backslashes(count));
            let counted = reading.units(before + backslashes(count));
            units_in_two_parts(reading, before + backslashes(count), seq![last]);
            one_unit(counted, last);
            let after = reading.units(units);
            assert(after == counted.unit(last));
            if last == QUOTE {
                assert((2 * earlier + 1) / 2 == earlier);
                assert((2 * earlier + 1) % 2 == 1);
            }
            assert(after.current == Some((argument + backslashes(earlier)).push(last)));
            assert(after.current->0 + backslashes(0) =~= value.drop_last().push(last));
            assert(value =~= value.drop_last().push(last));
        }
    }
}

proof fn quoted_reads_back(reading: Reading, value: Seq<u16>)
    requires
        reading.current is None,
        reading.slashes == 0,
        !reading.inside,
    ensures
        reading.units(quoted(value)) == (Reading { current: Some(value), ..reading }),
{
    let (units, pending) = written(value);
    let open = seq![QUOTE];
    one_unit(reading, QUOTE);
    let opened = reading.units(open);
    assert(Seq::<u16>::empty() + backslashes(0) =~= Seq::<u16>::empty());
    assert(opened.current == Some(Seq::<u16>::empty()));
    written_reads_back(opened, value);
    units_in_two_parts(reading, open, units);
    let reached = opened.units(units);
    let argument = reached.current->0;
    backslashes_are_counted(reached, 2 * pending);
    units_in_two_parts(reading, open + units, backslashes(2 * pending));
    let counted = reading.units(open + units + backslashes(2 * pending));
    units_in_two_parts(reading, open + units + backslashes(2 * pending), open);
    one_unit(counted, QUOTE);
    assert((2 * pending) / 2 == pending);
    assert((2 * pending) % 2 == 0);
    assert(counted.unit(QUOTE).current == Some(argument + backslashes(pending)));
}

/// Quoting loses nothing: reading a quoted argument by the rules of `CommandLineToArgvW` gives the
/// argument back, whatever it holds.
pub proof fn quoted_argument_reads_back(value: Seq<u16>)
    ensures
        read_arguments(quoted(value)) == seq![value],
{
    quoted_reads_back(unread(), value);
    assert(value + backslashes(0) =~= value);
    assert(read_arguments(quoted(value)) =~= seq![value]);
}

proof fn line_reads_back(arguments: Seq<Seq<u16>>)
    requires
        arguments.len() > 0,
    ensures
        unread().units(command_line(arguments)) == (Reading {
            arguments: arguments.drop_last(),
            current: Some(arguments.last()),
            slashes: 0,
            inside: false,
        }),
    decreases arguments.len(),
{
    if arguments.len() == 1 {
        quoted_reads_back(unread(), arguments[0]);
        assert(arguments.drop_last() =~= Seq::<Seq<u16>>::empty());
    } else {
        let before = arguments.drop_last();
        line_reads_back(before);
        let line = command_line(before);
        let reached = unread().units(line);
        one_unit(reached, SPACE);
        units_in_two_parts(unread(), line, seq![SPACE]);
        assert(line.push(SPACE) =~= line + seq![SPACE]);
        let between = reached.unit(SPACE);
        assert(before.last() + backslashes(0) =~= before.last());
        assert(before.drop_last().push(before.last()) =~= before);
        assert(between.arguments == before);
        units_in_two_parts(unread(), line.push(SPACE), quoted(arguments.last()));
        quoted_reads_back(between, arguments.last());
    }
}

/// A native command line loses nothing: reading it by the rules of `CommandLineToArgvW` gives the
/// arguments back, whatever they hold.
pub proof fn command_line_reads_back(arguments: Seq<Seq<u16>>)
    ensures
        read_arguments(command_line(arguments)) == arguments,
{
    if arguments.len() == 0 {
        assert(read_arguments(command_line(arguments)) =~= arguments);
    } else {
        line_reads_back(arguments);
        let last = arguments.last();
        assert(last + backslashes(0) =~= last);
        assert(arguments.drop_last().push(last) =~= arguments);
    }
}

} // verus!
