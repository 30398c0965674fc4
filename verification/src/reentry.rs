//! Re-entering the executable as the isolated writer.

use vstd::prelude::*;
use vstd::string::*;

use crate::digest;
use crate::digest::{hex_encode, sha256_of};
use crate::pipeline::command_line;
use crate::pipeline::launch;
use crate::pipeline::launch::MAX_WORKER_JOB_SIZE;
use crate::pipeline::WORKER_JOB_ARGUMENT;
use crate::text;
use crate::text::{same_ignoring_case, same_text};
use crate::worker;
use crate::worker::session::FileFacts;
use crate::worker::{has_valid_trailing_arguments, is_absolute, Platform};

verus! {

broadcast use vstd::seq_lib::group_seq_properties;

/// Whether a process is asked to be the isolated writer.
pub open spec fn is_reentry(arguments: Seq<String>) -> bool {
    worker::argument_is(arguments, 1, WORKER_JOB_ARGUMENT@)
}

/// Why the arguments of a process name no job file. The path may be followed by the digest that
/// pins the job, and by nothing else.
pub open spec fn reentry_fault(platform: Platform, arguments: Seq<String>) -> Option<Seq<char>> {
    if arguments.len() < 3 {
        Some("worker job path is missing"@)
    } else if arguments.len() > 3 && !worker::trailing_arguments_are_valid(platform, arguments) {
        Some("unexpected arguments after worker job path"@)
    } else if !worker::absolute_on(platform)(arguments[2]@) {
        Some("worker job path must be absolute"@)
    } else {
        None
    }
}

/// The job file that a process is asked to work on, where it is asked to be the isolated writer.
/// The first argument names the executable.
pub fn worker_job_path(platform: Platform, arguments: &Vec<String>) -> (result: Result<
    Option<String>,
    String,
>)
    ensures
        match result {
            Ok(None) => !is_reentry(arguments@),
            Ok(Some(path)) => is_reentry(arguments@) && reentry_fault(platform, arguments@) is None
                && path@ == arguments@[2]@,
            Err(fault) => is_reentry(arguments@) && reentry_fault(platform, arguments@) == Some(
                fault@,
            ),
        },
{
    if arguments.len() < 2 || !same_text(arguments[1].as_str(), WORKER_JOB_ARGUMENT) {
        return Ok(None);
    }
    if arguments.len() < 3 {
        return Err("worker job path is missing".to_owned());
    }
    if arguments.len() > 3 && !has_valid_trailing_arguments(platform, arguments) {
        return Err("unexpected arguments after worker job path".to_owned());
    }
    if !is_absolute(platform, arguments[2].as_str()) {
        return Err("worker job path must be absolute".to_owned());
    }
    Ok(Some(arguments[2].clone()))
}

/// Arguments that name a job file and pin its digest are those that the worker itself accepts.
pub proof fn pinned_reentry_is_accepted(platform: Platform, arguments: Seq<String>)
    requires
        is_reentry(arguments),
        reentry_fault(platform, arguments) is None,
        arguments.len() > 3,
    ensures
        worker::arguments_fault(platform, arguments) is None,
{
}

// ---------------------------------------------------------------------------------------------
// The job file
// ---------------------------------------------------------------------------------------------

/// Whether a path leads to what can be a job file.
pub open spec fn is_job_file(facts: FileFacts) -> bool {
    !facts.is_symlink && facts.is_file && is_job_size(facts.length as nat)
}

/// Whether a job file can have this size.
pub open spec fn is_job_size(size: nat) -> bool {
    size <= MAX_WORKER_JOB_SIZE
}

/// Check a job file before it is opened.
pub fn validate_job_path(facts: &FileFacts) -> (result: Result<(), String>)
    ensures
        match result {
            Ok(_) => is_job_file(*facts),
            Err(fault) => !is_job_file(*facts) && fault@
                == "worker job must be a small, non-symlink regular file"@,
        },
{
    if facts.is_symlink || !facts.is_file || facts.length > MAX_WORKER_JOB_SIZE {
        Err("worker job must be a small, non-symlink regular file".to_owned())
    } else {
        Ok(())
    }
}

/// Whether an opened job file is the one that its path showed.
pub open spec fn is_same_job(path: FileFacts, opened: FileFacts) -> bool {
    &&& opened.is_file
    &&& opened.length <= MAX_WORKER_JOB_SIZE
    &&& opened.device == path.device
    &&& opened.inode == path.inode
}

/// Check an opened job file against what its path showed, so that a path that was replaced in
/// between fails closed.
pub fn validate_opened_job(path: &FileFacts, opened: &FileFacts) -> (result: Result<(), String>)
    ensures
        match result {
            Ok(_) => is_same_job(*path, *opened),
            Err(fault) => !is_same_job(*path, *opened) && fault@
                == "worker job changed while it was opened"@,
        },
{
    if !opened.is_file || opened.length > MAX_WORKER_JOB_SIZE || opened.device != path.device
        || opened.inode != path.inode {
        Err("worker job changed while it was opened".to_owned())
    } else {
        Ok(())
    }
}

/// Check what was read of a job file. One byte more than [`MAX_WORKER_JOB_SIZE`] is enough of it.
pub fn validate_job_bytes(encoded: &Vec<u8>) -> (result: Result<(), String>)
    ensures
        match result {
            Ok(_) => is_job_size(encoded@.len()),
            Err(fault) => !is_job_size(encoded@.len()) && fault@ == "worker job is too large"@,
        },
{
    if encoded.len() as u64 > MAX_WORKER_JOB_SIZE {
        Err("worker job is too large".to_owned())
    } else {
        Ok(())
    }
}

/// Whether the bytes of a job file are those that the arguments pin. Arguments without a digest
/// pin nothing.
pub open spec fn is_pinned_job(arguments: Seq<String>, encoded: Seq<u8>) -> bool {
    is_pinned_digest(arguments, digest::sha256_text(encoded))
}

/// Check what was read of a job file against the digest that came over the command line, so that
/// a job file that was replaced on the way fails closed.
pub fn validate_job_digest(arguments: &Vec<String>, encoded: &Vec<u8>) -> (result: Result<
    (),
    String,
>)
    ensures
        match result {
            Ok(_) => is_pinned_job(arguments@, encoded@),
            Err(fault) => !is_pinned_job(arguments@, encoded@) && fault@
                == "worker job does not match its pinned digest"@,
        },
{
    let sha256 = hex_encode(sha256_of(encoded.as_slice()).as_slice());
    validate_pinned_digest(arguments, sha256.as_str())
}

/// Whether a digest is the one that the arguments pin.
pub open spec fn is_pinned_digest(arguments: Seq<String>, sha256: Seq<char>) -> bool {
    arguments.len() > 4 ==> text::lower_text(sha256) == text::lower_text(arguments[4]@)
}

/// Check the digest of a job file against the one that came over the command line.
pub fn validate_pinned_digest(arguments: &Vec<String>, sha256: &str) -> (result: Result<(), String>)
    ensures
        match result {
            Ok(_) => is_pinned_digest(arguments@, sha256@),
            Err(fault) => !is_pinned_digest(arguments@, sha256@) && fault@
                == "worker job does not match its pinned digest"@,
        },
{
    if arguments.len() <= 4 || same_ignoring_case(sha256, arguments[4].as_str()) {
        Ok(())
    } else {
        Err("worker job does not match its pinned digest".to_owned())
    }
}

/// A job file is accepted by the worker that was started with its digest; with the digest of
/// other bytes it is accepted only where the two have the same digest.
pub proof fn launched_job_is_accepted(
    platform: Platform,
    arguments: Seq<String>,
    executable: Seq<char>,
    job_path: Seq<char>,
    pinned: Seq<u8>,
    encoded: Seq<u8>,
)
    requires
        text::texts(arguments) == seq![executable] + command_line::argument_texts(
            platform,
            job_path,
            digest::sha256_text(pinned),
        ),
    ensures
        is_pinned_job(arguments, pinned),
        is_pinned_job(arguments, encoded) ==> digest::sha256(encoded) == digest::sha256(pinned),
{
    let given = command_line::argument_texts(platform, job_path, digest::sha256_text(pinned));
    assert(text::texts(arguments).len() == arguments.len());
    assert(given.len() >= 4 && given[3] == digest::sha256_text(pinned));
    assert((seq![executable] + given)[4] == given[3]);
    assert(arguments[4]@ == text::texts(arguments)[4]);
    if is_pinned_job(arguments, encoded) {
        digest::hex_reads_back(digest::sha256(encoded));
        digest::hex_reads_back(digest::sha256(pinned));
    }
}

/// A process names a job file exactly where it has an absolute path behind the marker of a worker,
/// and behind that path either nothing or the pinned digest, on Windows with the opt-in.
pub proof fn reentry_names_an_absolute_job(platform: Platform, arguments: Seq<String>)
    ensures
        is_reentry(arguments) <==> arguments.len() > 1 && arguments[1]@ == WORKER_JOB_ARGUMENT@,
        reentry_fault(platform, arguments) is None <==> {
            &&& worker::absolute_on(platform)(arguments[2]@)
            &&& arguments.len() == 3 || {
                &&& arguments.len() == (if platform is Windows {
                    7int
                } else {
                    5int
                })
                &&& arguments[3]@ == worker::WORKER_JOB_SHA256_ARGUMENT@
                &&& digest::is_sha256_text(arguments[4]@)
                &&& platform is Windows ==> arguments[5]@
                    == worker::WINDOWS_RAW_DEVICE_OPT_IN_ARGUMENT@ && arguments[6]@
                    == worker::WINDOWS_RAW_DEVICE_OPT_IN_VALUE@
            }
        },
{
}

/// What a launch hands to a worker, the worker takes: a job whose size the launch accepts passes as a
/// file that its path shows, that is the same when it is opened, and in the bytes that were read. A
/// link, another file under the path, and one that is too large are refused.
pub proof fn launched_job_file_is_taken(facts: FileFacts, opened: FileFacts)
    ensures
        launch::job_size_fault(facts.length as nat) is None && facts.is_file && !facts.is_symlink
            ==> is_job_file(facts) && is_same_job(facts, facts) && is_job_size(
            facts.length as nat,
        ),
        is_job_file(facts) && facts.length > 0 ==> launch::job_size_fault(
            facts.length as nat,
        ) is None,
        facts.is_symlink || !facts.is_file || facts.length > MAX_WORKER_JOB_SIZE ==> !is_job_file(
            facts,
        ),
        is_same_job(facts, opened) ==> opened.is_file && is_job_size(opened.length as nat)
            && opened.device == facts.device && opened.inode == facts.inode,
        is_job_file(facts) && opened == (FileFacts { length: opened.length, ..facts })
            && is_job_size(opened.length as nat) ==> is_same_job(facts, opened),
{
}

/// Arguments without a digest pin nothing: whatever the job file holds, it is the one they name.
/// Arguments with one pin it without regard to case.
pub proof fn only_a_digest_pins_the_job(arguments: Seq<String>, sha256: Seq<char>)
    ensures
        arguments.len() <= 4 ==> is_pinned_digest(arguments, sha256),
        arguments.len() > 4 && arguments[4]@ == sha256 ==> is_pinned_digest(arguments, sha256),
        arguments.len() > 4 && is_pinned_digest(arguments, sha256) ==> sha256.len()
            == arguments[4]@.len(),
{
    if arguments.len() > 4 {
        assert(text::lower_text(sha256).len() == sha256.len());
        assert(text::lower_text(arguments[4]@).len() == arguments[4]@.len());
    }
}

} // verus!
