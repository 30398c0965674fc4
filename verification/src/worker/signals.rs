//! The markers by which a client asks a running worker to stop or to skip the read-back.

use vstd::prelude::*;
use vstd::string::*;

use crate::flash::raw::Wishes;
use crate::text::join2;
use crate::worker;
use crate::worker::{WorkerError, WorkerErrorView, WorkerJob};

verus! {

/// What a look at the path of a marker came to.
#[derive(Debug)]
pub enum MarkerLookup {
    Found,
    NotFound,
    /// The path could not be looked at, for this cause.
    Failed(String),
}

/// A look at the paths of both markers.
#[derive(Debug)]
pub struct MarkerLooks {
    pub cancel: MarkerLookup,
    pub skip_verification: MarkerLookup,
}

/// Whether a marker is there. One that the job does not name never is.
pub open spec fn marker_verdict(named: bool, lookup: MarkerLookup) -> Result<
    bool,
    WorkerErrorView,
> {
    if !named {
        Ok(false)
    } else {
        match lookup {
            MarkerLookup::Found => Ok(true),
            MarkerLookup::NotFound => Ok(false),
            MarkerLookup::Failed(cause) => Err(
                WorkerErrorView::Platform("could not inspect worker marker path: "@ + cause@),
            ),
        }
    }
}

/// The signals after a look at the markers, and the failure of the look. A signal that was given
/// once stays given.
pub open spec fn refreshed(job: WorkerJob, signals: Wishes, looks: MarkerLooks) -> (
    Wishes,
    Option<WorkerErrorView>,
) {
    match marker_verdict(job.cancel_path is Some, looks.cancel) {
        Err(fault) => (signals, Some(fault)),
        Ok(cancel) => {
            let cancelled = Wishes { cancelled: signals.cancelled || cancel, ..signals };
            match marker_verdict(job.skip_verification_path is Some, looks.skip_verification) {
                Err(fault) => (cancelled, Some(fault)),
                Ok(skip) => (
                    Wishes {
                        skip_verification: signals.skip_verification || skip,
                        ..cancelled
                    },
                    None,
                ),
            }
        },
    }
}

/// The signals after a look at the markers, and why the job may not go on.
pub open spec fn checked(job: WorkerJob, signals: Wishes, looks: MarkerLooks) -> (
    Wishes,
    Option<WorkerErrorView>,
) {
    let (after, fault) = refreshed(job, signals, looks);
    match fault {
        Some(fault) => (after, Some(fault)),
        None => if after.cancelled {
            (after, Some(WorkerErrorView::Cancelled))
        } else {
            (after, None)
        },
    }
}

/// Whether a marker is there.
pub fn marker_exists(named: bool, lookup: &MarkerLookup) -> (result: Result<bool, WorkerError>)
    ensures
        match result {
            Ok(found) => marker_verdict(named, *lookup) == Ok::<bool, WorkerErrorView>(found),
            Err(error) => marker_verdict(named, *lookup) == Err::<bool, WorkerErrorView>(error@),
        },
{
    if !named {
        return Ok(false);
    }
    match lookup {
        MarkerLookup::Found => Ok(true),
        MarkerLookup::NotFound => Ok(false),
        MarkerLookup::Failed(cause) => Err(
            WorkerError::Platform(join2("could not inspect worker marker path: ", cause.as_str())),
        ),
    }
}

/// Take over what a look at the markers shows.
pub fn refresh(job: &WorkerJob, signals: &mut Wishes, looks: &MarkerLooks) -> (result: Result<
    (),
    WorkerError,
>)
    ensures
        *final(signals) == refreshed(*job, *old(signals), *looks).0,
        worker::is_verdict(result, refreshed(*job, *old(signals), *looks).1),
{
    match marker_exists(job.cancel_path.is_some(), &looks.cancel) {
        Err(error) => {
            return Err(error);
        },
        Ok(found) => {
            signals.cancelled = signals.cancelled || found;
        },
    }
    match marker_exists(job.skip_verification_path.is_some(), &looks.skip_verification) {
        Err(error) => {
            return Err(error);
        },
        Ok(found) => {
            signals.skip_verification = signals.skip_verification || found;
        },
    }
    Ok(())
}

/// Take over what a look at the markers shows, and refuse to go on where the job is cancelled.
pub fn check_cancelled(job: &WorkerJob, signals: &mut Wishes, looks: &MarkerLooks) -> (result:
    Result<(), WorkerError>)
    ensures
        *final(signals) == checked(*job, *old(signals), *looks).0,
        worker::is_verdict(result, checked(*job, *old(signals), *looks).1),
{
    match refresh(job, signals, looks) {
        Err(error) => Err(error),
        Ok(()) => {
            if signals.cancelled {
                Err(WorkerError::Cancelled)
            } else {
                Ok(())
            }
        },
    }
}

/// A wish is heard exactly where the job names its marker and the marker is there, and it stays
/// given ever after; a named marker that cannot be looked at stops the job, and one that the job
/// does not name says nothing, whatever is found at its path.
pub proof fn wish_is_heard_and_stays(job: WorkerJob, signals: Wishes, looks: MarkerLooks)
    ensures
        ({
            let (after, fault) = refreshed(job, signals, looks);
            let hidden = (job.cancel_path is Some && looks.cancel is Failed) || (
            job.skip_verification_path is Some && looks.skip_verification is Failed);
            &&& fault is Some <==> hidden
            &&& fault matches Some(error) ==> error is Platform
            &&& signals.cancelled ==> after.cancelled
            &&& signals.skip_verification ==> after.skip_verification
            &&& !hidden ==> {
                &&& after.cancelled <==> signals.cancelled || (job.cancel_path is Some
                    && looks.cancel is Found)
                &&& after.skip_verification <==> signals.skip_verification || (
                job.skip_verification_path is Some && looks.skip_verification is Found)
            }
        }),
{
}

/// A job may not go on exactly where it was cancelled or a marker that it names cannot be looked at;
/// a wish to skip the read-back never stops it.
pub proof fn only_a_cancelled_job_is_stopped(
    job: WorkerJob,
    signals: Wishes,
    looks: MarkerLooks,
)
    requires
        job.cancel_path is Some ==> !(looks.cancel is Failed),
        job.skip_verification_path is Some ==> !(looks.skip_verification is Failed),
    ensures
        checked(job, signals, looks).0 == refreshed(job, signals, looks).0,
        checked(job, signals, looks).1 == (if signals.cancelled || (job.cancel_path is Some
            && looks.cancel is Found) {
            Some(WorkerErrorView::Cancelled)
        } else {
            None
        }),
{
}

} // verus!
