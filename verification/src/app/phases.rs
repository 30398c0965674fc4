//! The phases that a running operation shows.

use vstd::prelude::*;

use crate::flash::FlashStage;
use crate::pipeline::PipelineEvent;
use crate::worker::WorkerPhase;

verus! {

/// What a running operation is doing.
#[derive(Clone, Copy, Debug, PartialEq, Eq, Structural)]
pub enum OperationPhase {
    Downloading,
    Decompressing,
    Authorizing,
    ValidatingImage,
    ValidatingTarget,
    Unmounting,
    Writing,
    Verifying,
    Syncing,
    Ejecting,
}

impl OperationPhase {
    /// The heading of a phase.
    pub open spec fn title_text(self) -> Seq<char> {
        match self {
            OperationPhase::Downloading => "Downloading SnapDog OS…"@,
            OperationPhase::Decompressing => "Preparing the image…"@,
            OperationPhase::Authorizing => "Waiting for approval…"@,
            OperationPhase::ValidatingImage => "Checking the image…"@,
            OperationPhase::ValidatingTarget => "Checking the target…"@,
            OperationPhase::Unmounting => "Preparing the target…"@,
            OperationPhase::Writing => "Writing SnapDog OS…"@,
            OperationPhase::Verifying => "Verifying the SD card…"@,
            OperationPhase::Syncing => "Finishing the write…"@,
            OperationPhase::Ejecting => "Safely ejecting…"@,
        }
    }

    /// The heading of a phase.
    pub fn title(self) -> (result: &'static str)
        ensures
            result@ == self.title_text(),
    {
        match self {
            OperationPhase::Downloading => "Downloading SnapDog OS…",
            OperationPhase::Decompressing => "Preparing the image…",
            OperationPhase::Authorizing => "Waiting for approval…",
            OperationPhase::ValidatingImage => "Checking the image…",
            OperationPhase::ValidatingTarget => "Checking the target…",
            OperationPhase::Unmounting => "Preparing the target…",
            OperationPhase::Writing => "Writing SnapDog OS…",
            OperationPhase::Verifying => "Verifying the SD card…",
            OperationPhase::Syncing => "Finishing the write…",
            OperationPhase::Ejecting => "Safely ejecting…",
        }
    }

    /// What is said below the heading.
    pub open spec fn detail_text(self) -> Seq<char> {
        match self {
            OperationPhase::Downloading => {
                "The image is downloaded only now, after your confirmation."@
            },
            OperationPhase::Decompressing => {
                "Checking size and both release checksums before touching the SD card."@
            },
            OperationPhase::Authorizing => {
                "Approve the system dialog so the selected drive can be written."@
            },
            OperationPhase::ValidatingImage => {
                "Rechecking the prepared image before the selected drive is accessed."@
            },
            OperationPhase::ValidatingTarget => {
                "Confirming that the same removable physical drive is still connected."@
            },
            OperationPhase::Unmounting => "Closing mounted volumes before raw-device access."@,
            OperationPhase::Writing => {
                "Do not remove the SD card. Cancelling now can leave it incomplete."@
            },
            OperationPhase::Verifying => {
                "Reading the image back to detect faulty media or write errors."@
            },
            OperationPhase::Syncing => "Flushing all buffered data to the SD card."@,
            OperationPhase::Ejecting => {
                "Waiting until the system reports that the card is safe to remove."@
            },
        }
    }

    /// What is said below the heading.
    pub fn detail(self) -> (result: &'static str)
        ensures
            result@ == self.detail_text(),
    {
        match self {
            OperationPhase::Downloading => {
                "The image is downloaded only now, after your confirmation."
            },
            OperationPhase::Decompressing => {
                "Checking size and both release checksums before touching the SD card."
            },
            OperationPhase::Authorizing => {
                "Approve the system dialog so the selected drive can be written."
            },
            OperationPhase::ValidatingImage => {
                "Rechecking the prepared image before the selected drive is accessed."
            },
            OperationPhase::ValidatingTarget => {
                "Confirming that the same removable physical drive is still connected."
            },
            OperationPhase::Unmounting => "Closing mounted volumes before raw-device access.",
            OperationPhase::Writing => {
                "Do not remove the SD card. Cancelling now can leave it incomplete."
            },
            OperationPhase::Verifying => {
                "Reading the image back to detect faulty media or write errors."
            },
            OperationPhase::Syncing => "Flushing all buffered data to the SD card.",
            OperationPhase::Ejecting => {
                "Waiting until the system reports that the card is safe to remove."
            },
        }
    }

    /// The step of the strip that a phase belongs to.
    pub open spec fn step_number(self) -> nat {
        match self {
            OperationPhase::Downloading => 0,
            OperationPhase::Decompressing
            | OperationPhase::Authorizing
            | OperationPhase::ValidatingImage
            | OperationPhase::ValidatingTarget
            | OperationPhase::Unmounting => 1,
            OperationPhase::Writing => 2,
            OperationPhase::Verifying => 3,
            OperationPhase::Syncing | OperationPhase::Ejecting => 4,
        }
    }

    /// The step of the strip that a phase belongs to.
    pub fn step(self) -> (result: usize)
        ensures
            result == self.step_number(),
    {
        match self {
            OperationPhase::Downloading => 0,
            OperationPhase::Decompressing
            | OperationPhase::Authorizing
            | OperationPhase::ValidatingImage
            | OperationPhase::ValidatingTarget
            | OperationPhase::Unmounting => 1,
            OperationPhase::Writing => 2,
            OperationPhase::Verifying => 3,
            OperationPhase::Syncing | OperationPhase::Ejecting => 4,
        }
    }

    /// Whether an operation can still be cancelled in this phase.
    pub open spec fn is_cancellable(self) -> bool {
        self != OperationPhase::Syncing && self != OperationPhase::Ejecting
    }

    /// Whether an operation can still be cancelled in this phase.
    pub fn can_cancel(self) -> (result: bool)
        ensures
            result == self.is_cancellable(),
    {
        !matches!(self, OperationPhase::Syncing | OperationPhase::Ejecting)
    }

    /// Whether the target may have been written to in this phase.
    pub open spec fn has_written(self) -> bool {
        self == OperationPhase::Writing || self == OperationPhase::Verifying || self
            == OperationPhase::Syncing || self == OperationPhase::Ejecting
    }

    /// Whether nothing of the target has been looked at in this phase.
    pub open spec fn precedes_target(self) -> bool {
        self == OperationPhase::Downloading || self == OperationPhase::Decompressing || self
            == OperationPhase::Authorizing || self == OperationPhase::ValidatingImage
    }
}

/// How far a running operation is.
#[derive(Clone, Copy, Debug, PartialEq, Eq, Structural)]
pub struct Position {
    pub phase: OperationPhase,
    pub processed: Option<u64>,
    pub total: Option<u64>,
}

/// The phase of a worker, as it is shown. The end of a worker is no phase of its own.
pub open spec fn worker_phase(current: OperationPhase, phase: WorkerPhase) -> OperationPhase {
    match phase {
        WorkerPhase::ValidatingImage => OperationPhase::ValidatingImage,
        WorkerPhase::ValidatingTarget => OperationPhase::ValidatingTarget,
        WorkerPhase::Unmounting => OperationPhase::Unmounting,
        WorkerPhase::Writing => OperationPhase::Writing,
        WorkerPhase::Verifying => OperationPhase::Verifying,
        WorkerPhase::Syncing => OperationPhase::Syncing,
        WorkerPhase::Ejecting | WorkerPhase::Completed => OperationPhase::Ejecting,
        WorkerPhase::Cancelled | WorkerPhase::Failed => current,
    }
}

/// The phase of the flash core, as it is shown.
pub open spec fn stage_phase(stage: FlashStage) -> OperationPhase {
    match stage {
        FlashStage::Decompressing => OperationPhase::Decompressing,
        FlashStage::Writing => OperationPhase::Writing,
        FlashStage::Verifying => OperationPhase::Verifying,
    }
}

impl Position {
    /// The position after an event.
    pub open spec fn after(self, event: PipelineEvent) -> Position {
        match event {
            PipelineEvent::Download(progress) => Position {
                phase: OperationPhase::Downloading,
                processed: Some(progress.downloaded),
                total: progress.total,
            },
            PipelineEvent::Preparing(progress) => Position {
                phase: stage_phase(progress.stage),
                processed: Some(progress.processed),
                total: progress.total,
            },
            PipelineEvent::AwaitingAuthorization => Position {
                phase: OperationPhase::Authorizing,
                processed: None,
                total: None,
            },
            PipelineEvent::Worker(progress) => Position {
                phase: worker_phase(self.phase, progress.phase),
                processed: progress.bytes_processed,
                total: progress.total_bytes,
            },
        }
    }

    /// Take an event of the pipeline.
    pub fn apply_pipeline_event(&mut self, event: &PipelineEvent)
        ensures
            *final(self) == old(self).after(*event),
    {
        match event {
            PipelineEvent::Download(progress) => {
                self.phase = OperationPhase::Downloading;
                self.processed = Some(progress.downloaded);
                self.total = progress.total;
            },
            PipelineEvent::Preparing(progress) => {
                self.phase = match progress.stage {
                    FlashStage::Decompressing => OperationPhase::Decompressing,
                    FlashStage::Writing => OperationPhase::Writing,
                    FlashStage::Verifying => OperationPhase::Verifying,
                };
                self.processed = Some(progress.processed);
                self.total = progress.total;
            },
            PipelineEvent::AwaitingAuthorization => {
                self.phase = OperationPhase::Authorizing;
                self.processed = None;
                self.total = None;
            },
            PipelineEvent::Worker(progress) => {
                self.phase = match progress.phase {
                    WorkerPhase::ValidatingImage => OperationPhase::ValidatingImage,
                    WorkerPhase::ValidatingTarget => OperationPhase::ValidatingTarget,
                    WorkerPhase::Unmounting => OperationPhase::Unmounting,
                    WorkerPhase::Writing => OperationPhase::Writing,
                    WorkerPhase::Verifying => OperationPhase::Verifying,
                    WorkerPhase::Syncing => OperationPhase::Syncing,
                    WorkerPhase::Ejecting | WorkerPhase::Completed => OperationPhase::Ejecting,
                    WorkerPhase::Cancelled | WorkerPhase::Failed => self.phase,
                };
                self.processed = progress.bytes_processed;
                self.total = progress.total_bytes;
            },
        }
    }
}

/// What is shown of an operation is what it last reported: the bytes of the event against its
/// total, in the phase that the event belongs to. Asking for approval has no bytes, and the end of a
/// worker without success leaves the phase in which it came.
pub proof fn position_is_what_was_last_reported(position: Position, event: PipelineEvent)
    ensures
        ({
            let after = position.after(event);
            match event {
                PipelineEvent::Download(progress) => after.phase == OperationPhase::Downloading
                    && after.processed == Some(progress.downloaded) && after.total
                    == progress.total,
                PipelineEvent::Preparing(progress) => after.processed == Some(progress.processed)
                    && after.total == progress.total && (progress.stage
                    == FlashStage::Decompressing ==> after.phase
                    == OperationPhase::Decompressing) && (progress.stage == FlashStage::Writing
                    ==> after.phase == OperationPhase::Writing) && (progress.stage
                    == FlashStage::Verifying ==> after.phase == OperationPhase::Verifying),
                PipelineEvent::AwaitingAuthorization => after.phase == OperationPhase::Authorizing
                    && after.processed is None && after.total is None,
                PipelineEvent::Worker(progress) => {
                    let reported = progress.phase;
                    &&& after.processed == progress.bytes_processed
                    &&& after.total == progress.total_bytes
                    &&& after.phase == OperationPhase::ValidatingImage <== reported
                        == WorkerPhase::ValidatingImage
                    &&& after.phase == OperationPhase::ValidatingTarget <== reported
                        == WorkerPhase::ValidatingTarget
                    &&& after.phase == OperationPhase::Unmounting <== reported
                        == WorkerPhase::Unmounting
                    &&& after.phase == OperationPhase::Writing <== reported == WorkerPhase::Writing
                    &&& after.phase == OperationPhase::Verifying <== reported
                        == WorkerPhase::Verifying
                    &&& after.phase == OperationPhase::Syncing <== reported == WorkerPhase::Syncing
                    &&& after.phase == OperationPhase::Ejecting <== reported
                        == WorkerPhase::Ejecting || reported == WorkerPhase::Completed
                    &&& after.phase == position.phase <== reported == WorkerPhase::Cancelled
                        || reported == WorkerPhase::Failed
                },
            }
        }),
{
}

/// The strip of steps never goes back while an operation goes through its phases in their order.
pub proof fn steps_follow_the_order_of_the_phases()
    ensures
        OperationPhase::Downloading.step_number() == 0,
        OperationPhase::Decompressing.step_number() == 1,
        OperationPhase::Authorizing.step_number() == 1,
        OperationPhase::ValidatingImage.step_number() == 1,
        OperationPhase::ValidatingTarget.step_number() == 1,
        OperationPhase::Unmounting.step_number() == 1,
        OperationPhase::Writing.step_number() == 2,
        OperationPhase::Verifying.step_number() == 3,
        OperationPhase::Syncing.step_number() == 4,
        OperationPhase::Ejecting.step_number() == 4,
{
}

/// An operation can be cancelled until the last of its steps, and before it has written anything in
/// any case. The target may have been written to from the step of writing on. Nothing of the target
/// has been looked at in the phases before it is checked.
pub proof fn last_step_cannot_be_cancelled(phase: OperationPhase)
    ensures
        phase.is_cancellable() <==> phase.step_number() < 4,
        !phase.has_written() ==> phase.is_cancellable(),
        phase.has_written() <==> phase.step_number() >= 2,
        phase.precedes_target() <==> !phase.has_written() && !(phase is ValidatingTarget)
            && !(phase is Unmounting),
{
}

/// Two phases never have the same heading, nor is the same said below it.
pub proof fn phases_are_told_apart(first: OperationPhase, second: OperationPhase)
    ensures
        first.title_text() == second.title_text() ==> first == second,
        first.detail_text() == second.detail_text() ==> first == second,
{
    reveal_strlit("Downloading SnapDog OS…");
    reveal_strlit("Preparing the image…");
    reveal_strlit("Waiting for approval…");
    reveal_strlit("Checking the image…");
    reveal_strlit("Checking the target…");
    reveal_strlit("Preparing the target…");
    reveal_strlit("Writing SnapDog OS…");
    reveal_strlit("Verifying the SD card…");
    reveal_strlit("Finishing the write…");
    reveal_strlit("Safely ejecting…");
    reveal_strlit("The image is downloaded only now, after your confirmation.");
    reveal_strlit("Checking size and both release checksums before touching the SD card.");
    reveal_strlit("Approve the system dialog so the selected drive can be written.");
    reveal_strlit("Rechecking the prepared image before the selected drive is accessed.");
    reveal_strlit("Confirming that the same removable physical drive is still connected.");
    reveal_strlit("Closing mounted volumes before raw-device access.");
    reveal_strlit("Do not remove the SD card. Cancelling now can leave it incomplete.");
    reveal_strlit("Reading the image back to detect faulty media or write errors.");
    reveal_strlit("Flushing all buffered data to the SD card.");
    reveal_strlit("Waiting until the system reports that the card is safe to remove.");
    assert("Downloading SnapDog OS…"@.len() == 23);
    assert("Preparing the image…"@.len() == 20);
    assert("Waiting for approval…"@.len() == 21);
    assert("Checking the image…"@.len() == 19);
    assert("Checking the target…"@.len() == 20);
    assert("Preparing the target…"@.len() == 21);
    assert("Writing SnapDog OS…"@.len() == 19);
    assert("Verifying the SD card…"@.len() == 22);
    assert("Finishing the write…"@.len() == 20);
    assert("Safely ejecting…"@.len() == 16);
    assert("Preparing the image…"@[0] != "Checking the target…"@[0]);
    assert("Preparing the image…"@[0] != "Finishing the write…"@[0]);
    assert("Checking the target…"@[0] != "Finishing the write…"@[0]);
    assert("Waiting for approval…"@[0] != "Preparing the target…"@[0]);
    assert("Checking the image…"@[0] != "Writing SnapDog OS…"@[0]);
    assert("The image is downloaded only now, after your confirmation."@.len() == 58);
    assert("Checking size and both release checksums before touching the SD card."@.len() == 69);
    assert("Approve the system dialog so the selected drive can be written."@.len() == 63);
    assert("Rechecking the prepared image before the selected drive is accessed."@.len() == 68);
    assert("Confirming that the same removable physical drive is still connected."@.len() == 69);
    assert("Closing mounted volumes before raw-device access."@.len() == 49);
    assert("Do not remove the SD card. Cancelling now can leave it incomplete."@.len() == 66);
    assert("Reading the image back to detect faulty media or write errors."@.len() == 62);
    assert("Flushing all buffered data to the SD card."@.len() == 42);
    assert("Waiting until the system reports that the card is safe to remove."@.len() == 65);
    assert("Checking size and both release checksums before touching the SD card."@[1] != "Confirming that the same removable physical drive is still connected."@[1]);
}

} // verus!
