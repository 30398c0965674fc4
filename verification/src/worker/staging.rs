//! Opening the raw image that a job names, before it is copied into the worker's own keeping.

use vstd::prelude::*;

use crate::worker;
use crate::worker::windows_session;
use crate::worker::windows_session::{validate_windows_metadata, WindowsFileFacts};
use crate::worker::{
    invalid_session, invalid_session2, RawImageFacts, WorkerError, WorkerErrorView, WorkerJob,
};

verus! {

/// Whether the opened file is the one that was looked at.
#[derive(Debug)]
pub enum OpenedIdentity {
    /// The device and the inode of the path and of the opened file.
    Unix { named: (u64, u64), found: (u64, u64) },
    /// Another look at the path, the opened file, and whether handles of both are the same.
    Windows {
        path: Result<WindowsFileFacts, String>,
        opened: WindowsFileFacts,
        same: Result<bool, String>,
    },
}

/// What opening the raw image came to: a look at its path, then the opened file with its identity,
/// or why it could not be opened and looked at.
#[derive(Debug)]
pub struct RawImageOpening {
    pub path: Result<RawImageFacts, String>,
    pub opened: Result<(RawImageFacts, OpenedIdentity), String>,
}

/// Why an opened file is not the one that was looked at.
pub open spec fn identity_fault(job: WorkerJob, identity: OpenedIdentity) -> Option<
    WorkerErrorView,
> {
    match identity {
        OpenedIdentity::Unix { named, found } => if named == found {
            None
        } else {
            Some(WorkerErrorView::InvalidJob("raw image changed while it was opened"@))
        },
        OpenedIdentity::Windows { path, opened, same } => match path {
            Err(cause) => Some(
                WorkerErrorView::InvalidJob("raw image is not readable: "@ + cause@),
            ),
            Ok(facts) => match windows_session::entry_reason(
                facts,
                false,
                Some(job.raw_size),
                false,
                "snapdog-os.img"@,
            ) {
                Some(fault) => Some(fault),
                None => match windows_session::entry_reason(
                    opened,
                    false,
                    Some(job.raw_size),
                    false,
                    "snapdog-os.img"@,
                ) {
                    Some(fault) => Some(fault),
                    None => match same {
                        Err(cause) => Some(
                            WorkerErrorView::InvalidJob(
                                "raw image identity is unavailable: "@ + cause@,
                            ),
                        ),
                        Ok(true) => None,
                        Ok(false) => Some(
                            WorkerErrorView::InvalidJob("raw image changed while it was opened"@),
                        ),
                    },
                },
            },
        },
    }
}

/// Why an opened raw image is refused.
pub open spec fn opening_fault(job: WorkerJob, opening: RawImageOpening) -> Option<
    WorkerErrorView,
> {
    match opening.path {
        Err(cause) => Some(WorkerErrorView::InvalidJob("raw image is not readable: "@ + cause@)),
        Ok(facts) => if facts.is_symlink || !facts.is_file {
            Some(
                WorkerErrorView::InvalidJob("raw image path must be a non-symlink regular file"@),
            )
        } else {
            match opening.opened {
                Err(cause) => Some(
                    WorkerErrorView::InvalidJob("raw image is not readable: "@ + cause@),
                ),
                Ok((opened, identity)) => if !opened.is_file || opened.length != job.raw_size {
                    Some(WorkerErrorView::InvalidJob("raw image changed after preparation"@))
                } else {
                    identity_fault(job, identity)
                },
            }
        },
    }
}

fn same_image(job: &WorkerJob, identity: &OpenedIdentity) -> (result: Result<(), WorkerError>)
    ensures
        worker::is_verdict(result, identity_fault(*job, *identity)),
{
    match identity {
        OpenedIdentity::Unix { named, found } => {
            if named.0 != found.0 || named.1 != found.1 {
                return Err(invalid_session("raw image changed while it was opened"));
            }
            Ok(())
        },
        OpenedIdentity::Windows { path, opened, same } => {
            match path {
                Err(cause) => {
                    return Err(invalid_session2("raw image is not readable: ", cause.as_str()));
                },
                Ok(facts) => match validate_windows_metadata(
                    facts,
                    false,
                    Some(job.raw_size),
                    false,
                    "snapdog-os.img",
                ) {
                    Err(error) => {
                        return Err(error);
                    },
                    Ok(()) => {},
                },
            }
            match validate_windows_metadata(
                opened,
                false,
                Some(job.raw_size),
                false,
                "snapdog-os.img",
            ) {
                Err(error) => {
                    return Err(error);
                },
                Ok(()) => {},
            }
            match same {
                Err(cause) => Err(
                    invalid_session2("raw image identity is unavailable: ", cause.as_str()),
                ),
                Ok(true) => Ok(()),
                Ok(false) => Err(invalid_session("raw image changed while it was opened")),
            }
        },
    }
}

/// Whether a look at a path found a plain file, which may be opened.
pub fn is_plain_image(facts: &RawImageFacts) -> (result: bool)
    ensures
        result == (facts.is_file && !facts.is_symlink),
{
    facts.is_file && !facts.is_symlink
}

/// Judge an opened raw image: it is the plain file that the job describes, and the file that was
/// opened is the one that was looked at.
pub fn open_raw_image(job: &WorkerJob, opening: &RawImageOpening) -> (result: Result<
    (),
    WorkerError,
>)
    ensures
        worker::is_verdict(result, opening_fault(*job, *opening)),
{
    match &opening.path {
        Err(cause) => {
            return Err(invalid_session2("raw image is not readable: ", cause.as_str()));
        },
        Ok(facts) => {
            if !is_plain_image(facts) {
                return Err(invalid_session("raw image path must be a non-symlink regular file"));
            }
        },
    }
    match &opening.opened {
        Err(cause) => Err(invalid_session2("raw image is not readable: ", cause.as_str())),
        Ok((opened, identity)) => {
            if !opened.is_file || opened.length != job.raw_size {
                return Err(invalid_session("raw image changed after preparation"));
            }
            same_image(job, identity)
        },
    }
}

/// A raw image may be copied exactly where its path is that of a plain file, the opened file is a
/// plain one of the size that the job names, and the two are the same file.
pub proof fn image_is_taken_only_as_it_was_described(job: WorkerJob, opening: RawImageOpening)
    ensures
        opening_fault(job, opening) is None <==> {
            &&& opening.path matches Ok(facts) && facts.is_file && !facts.is_symlink
            &&& opening.opened matches Ok((opened, identity)) && opened.is_file && opened.length
                == job.raw_size && identity_fault(job, identity) is None
        },
        opening_fault(job, opening) matches Some(fault) ==> fault is InvalidJob,
{
}

/// On Unix the opened file is the one that was looked at exactly where device and inode agree.
pub proof fn same_inode_is_the_same_image(job: WorkerJob, named: (u64, u64), found: (u64, u64))
    ensures
        identity_fault(job, OpenedIdentity::Unix { named, found }) is None <==> named.0 == found.0
            && named.1 == found.1,
{
}

/// On Windows the opened file is the one that was looked at exactly where the path and the opened
/// file are both plain files of the size that the job names, and handles of both agree.
pub proof fn same_handle_is_the_same_image(
    job: WorkerJob,
    path: Result<WindowsFileFacts, String>,
    opened: WindowsFileFacts,
    same: Result<bool, String>,
)
    ensures
        identity_fault(job, OpenedIdentity::Windows { path, opened, same }) is None <==> {
            &&& path matches Ok(facts) && windows_session::entry_reason(
                facts,
                false,
                Some(job.raw_size),
                false,
                "snapdog-os.img"@,
            ) is None
            &&& windows_session::entry_reason(
                opened,
                false,
                Some(job.raw_size),
                false,
                "snapdog-os.img"@,
            ) is None
            &&& same matches Ok(agree) && agree
        },
{
}

} // verus!
